use vstd::prelude::*;

verus! {

/// Number of entries in the machine palette.
pub const PALETTE_SIZE: usize = 16;

/// The hardware colour-lookup table: each machine colour index mapped to a
/// 16-bit 5-6-5 display colour.
pub open spec fn clut_spec(index: int) -> u16 {
    if index == 0 { 0x0000 }       // black
    else if index == 1 { 0xffff }  // white
    else if index == 2 { 0x29ad }  // red
    else if index == 3 { 0xb52e }  // cyan
    else if index == 4 { 0x81ed }  // purple
    else if index == 5 { 0x446b }  // green
    else if index == 6 { 0x7946 }  // blue
    else if index == 7 { 0x6e37 }  // yellow
    else if index == 8 { 0x226d }  // orange
    else if index == 9 { 0x01c8 }  // brown
    else if index == 10 { 0x5b33 } // light red
    else if index == 11 { 0x4228 } // dark gray
    else if index == 12 { 0x6b6d } // medium gray
    else if index == 13 { 0x8693 } // light green
    else if index == 14 { 0xb2ed } // light blue
    else { 0x94b2 }                // light gray
}

/// The lookup-table entry of one colour index.
pub fn clut_entry(index: u8) -> (r: u16)
    requires
        index < 16,
    ensures
        r == clut_spec(index as int),
{
    match index {
        0 => 0x0000,
        1 => 0xffff,
        2 => 0x29ad,
        3 => 0xb52e,
        4 => 0x81ed,
        5 => 0x446b,
        6 => 0x7946,
        7 => 0x6e37,
        8 => 0x226d,
        9 => 0x01c8,
        10 => 0x5b33,
        11 => 0x4228,
        12 => 0x6b6d,
        13 => 0x8693,
        14 => 0xb2ed,
        _ => 0x94b2,
    }
}

/// The whole lookup table, in index order, as it is loaded into the hardware.
pub fn clut_table() -> (r: Vec<u16>)
    ensures
        r@.len() == PALETTE_SIZE,
        forall|i: int| 0 <= i < PALETTE_SIZE ==> #[trigger] r@[i] == clut_spec(i),
{
    let mut r: Vec<u16> = Vec::new();
    let mut i: u8 = 0;
    while i < 16
        invariant
            i <= 16,
            r@.len() == i as int,
            forall|j: int| 0 <= j < i ==> r@[j] == clut_spec(j),
        decreases 16 - i,
    {
        let c = clut_entry(i);
        r.push(c);
        i = i + 1;
    }
    r
}

/// A palette of 32-bit display-colour words, one per machine colour index.
pub struct Palette {
    pub colors: [u32; 16],
}

impl Palette {
    pub open spec fn color(&self, index: int) -> u32 {
        self.colors@[index]
    }

    /// The identity palette: entry `i` holds the word `i`.
    pub fn identity() -> (r: Palette)
        ensures
            forall|i: int| 0 <= i < 16 ==> #[trigger] r.color(i) == i as u32,
    {
        let mut colors: [u32; 16] = [0u32; 16];
        let mut i: usize = 0;
        while i < 16
            invariant
                i <= 16,
                colors@.len() == 16,
                forall|j: int| 0 <= j < i ==> colors@[j] == j as u32,
            decreases 16 - i,
        {
            colors[i] = i as u32;
            i = i + 1;
        }
        Palette { colors }
    }

    /// The palette's entry for one colour index.
    pub fn lookup(&self, index: u8) -> (r: u32)
        requires
            index < 16,
        ensures
            r == self.color(index as int),
    {
        self.colors[index as usize]
    }
}

} // verus!
