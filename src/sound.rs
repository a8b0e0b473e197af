use vstd::prelude::*;
use std::rc::Rc;
use std::sync::Arc;

verus! {

/// Scaler value at full volume.
pub const SCALER_MAX: u32 = 4096;
/// Highest volume setting.
pub const VOLUME_MAX: u8 = 100;

/// The scaler that goes with a volume setting.
pub open spec fn scaler_for(volume: u8) -> u32 {
    (volume as int * SCALER_MAX as int / VOLUME_MAX as int) as u32
}

/// A signed 16-bit sample moved into the unsigned 12-bit range.
pub open spec fn converted_sample(value: i16) -> u32 {
    ((value as int + 32768) / 16) as u32
}

/// Sound output that discards what it is given; mixing is not done here.
pub struct SoundBuffer {}

impl SoundBuffer {
    pub fn new(length: usize) -> Self {
        SoundBuffer {}
    }

    pub fn get_data(&self) {
    }

    pub fn reset(&self) {
    }

    pub fn write(&self, samples: &[i16]) {
    }
}

/// Fills the audio device's buffers.
pub struct AudioRenderer {
    buffer: Arc<SoundBuffer>,
    mute: bool,
    scaler: u32,
    volume: u8,
}

impl AudioRenderer {
    pub closed spec fn muted(&self) -> bool {
        self.mute
    }

    pub closed spec fn volume(&self) -> u8 {
        self.volume
    }

    pub closed spec fn scaler(&self) -> u32 {
        self.scaler
    }

    /// A renderer at full volume, not muted.
    pub fn new(buffer: Arc<SoundBuffer>) -> (r: Self)
        ensures
            !r.muted(),
            r.volume() == VOLUME_MAX,
            r.scaler() == SCALER_MAX,
    {
        let mut renderer = AudioRenderer { buffer, mute: false, scaler: 0, volume: 0 };
        renderer.set_volume(VOLUME_MAX);
        renderer
    }

    pub fn is_mute(&self) -> (r: bool)
        ensures
            r == self.muted(),
    {
        self.mute
    }

    /// Sets the volume and the scaler that goes with it.
    pub fn set_volume(&mut self, volume: u8)
        ensures
            final(self).volume() == volume,
            final(self).scaler() == scaler_for(volume),
            final(self).muted() == old(self).muted(),
    {
        self.scaler = (volume as u32 * SCALER_MAX) / VOLUME_MAX as u32;
        self.volume = volume;
    }

    pub fn toggle_mute(&mut self)
        ensures
            final(self).muted() == !old(self).muted(),
            final(self).volume() == old(self).volume(),
            final(self).scaler() == old(self).scaler(),
    {
        self.mute = !self.mute;
    }

    /// Fills `out` for the device: silence when muted; otherwise the
    /// buffered samples, of which this output keeps none, so `out` is left
    /// as it is.
    pub fn write(&self, out: &mut Vec<u32>)
        ensures
            final(out)@.len() == old(out)@.len(),
            self.muted() ==> forall|i: int| 0 <= i < final(out)@.len() ==> #[trigger] final(out)@[i] == 0u32,
            !self.muted() ==> final(out)@ == old(out)@,
    {
        if !self.mute {
            self.copy(out);
        } else {
            let n = out.len();
            let mut i: usize = 0;
            while i < n
                invariant
                    n == out@.len(),
                    i <= n,
                    forall|j: int| 0 <= j < i ==> #[trigger] out@[j] == 0u32,
                decreases n - i,
            {
                out.set(i, 0u32);
                i = i + 1;
            }
        }
    }

    fn convert_sample(&self, value: i16) -> (r: u32)
        ensures
            r == converted_sample(value),
            r < 4096,
    {
        let mut sample: i32 = value as i32;
        sample = sample + 32768;
        sample = sample / 16;
        sample as u32
    }

    fn copy(&self, out: &mut Vec<u32>)
        ensures
            final(out)@ == old(out)@,
    {
    }
}

/// The device callback's handle on the renderer.
pub struct AudioCallback(pub Rc<AudioRenderer>);

/// Owns the audio renderer.
pub struct AudioEngine {
    renderer: Rc<AudioRenderer>,
}

impl AudioEngine {
    pub closed spec fn renderer_spec(&self) -> AudioRenderer {
        *self.renderer
    }

    /// An engine whose renderer starts at full volume, not muted; always
    /// succeeds.
    pub fn build(freq: u32, samples: usize, buffer: Arc<SoundBuffer>) -> (r: Result<AudioEngine, ()>)
        ensures
            r matches Ok(e) && !e.renderer_spec().muted() && e.renderer_spec().volume() == VOLUME_MAX
                && e.renderer_spec().scaler() == SCALER_MAX,
    {
        let renderer = Rc::new(AudioRenderer::new(buffer));
        Ok(AudioEngine { renderer })
    }

    pub fn make_irq_handler(&self) {
    }

    pub fn renderer(&self) -> (r: &Rc<AudioRenderer>)
        ensures
            **r == self.renderer_spec(),
    {
        &self.renderer
    }

    pub fn start(&self) {
    }
}

} // verus!
