use vstd::prelude::*;

verus! {

/// Why a blend could not be produced.
#[derive(Debug, Clone, Copy, PartialEq, Eq, Structural)]
pub enum ImgDataErrors {
    /// The two sources were encoded in different formats.
    DifferentImageFormats,
    /// The blended buffer is longer than the output's capacity.
    BufferTooSizeMismatch,
}

/// The output image waiting to be written: its dimensions, its destination name
/// and its pixel data, which may hold at most `img_capacity` bytes.
pub struct FloatingImg {
    pub img_width: u32,
    pub img_height: u32,
    pub img_data: Vec<u8>,
    pub img_name: String,
    pub img_capacity: usize,
}

impl FloatingImg {
    /// The capacity is that of an RGBA buffer of the declared dimensions, and
    /// the data fits in it.
    pub open spec fn wf(&self) -> bool {
        &&& self.img_capacity == self.img_width as int * self.img_height as int * 4
        &&& self.img_data@.len() <= self.img_capacity
    }

    /// An empty output of `img_width` x `img_height` RGBA pixels named
    /// `img_name`, with room reserved for its data.
    pub fn new(img_width: u32, img_height: u32, img_name: String) -> (r: Self)
        requires
            img_width as int * img_height as int * 4 <= usize::MAX,
        ensures
            r.wf(),
            r.img_width == img_width,
            r.img_height == img_height,
            r.img_name@ == img_name@,
            r.img_capacity == img_width as int * img_height as int * 4,
            r.img_data@.len() == 0,
    {
        proof {
            assert(0 <= img_width as int * img_height as int) by (nonlinear_arith);
        }
        let buffer_capacity: usize = (img_width as usize) * (img_height as usize) * 4;
        let buffer: Vec<u8> = Vec::with_capacity(buffer_capacity);
        FloatingImg {
            img_width,
            img_height,
            img_data: buffer,
            img_name,
            img_capacity: buffer_capacity,
        }
    }

    /// Adopts `img_data` as the output's pixels when it fits in the capacity;
    /// otherwise leaves the output as it was. A buffer shorter than the
    /// capacity is accepted.
    pub fn set_img_data(&mut self, img_data: Vec<u8>) -> (r: Result<(), ImgDataErrors>)
        requires
            old(self).wf(),
        ensures
            final(self).wf(),
            img_data@.len() > old(self).img_capacity ==> r == Err::<(), ImgDataErrors>(
                ImgDataErrors::BufferTooSizeMismatch,
            ) && *final(self) == *old(self),
            img_data@.len() <= old(self).img_capacity ==> r == Ok::<(), ImgDataErrors>(())
                && final(self).img_data@ == img_data@ && final(self).img_width == old(
                self,
            ).img_width && final(self).img_height == old(self).img_height
                && final(self).img_name == old(self).img_name && final(self).img_capacity
                == old(self).img_capacity,
    {
        if img_data.len() > self.img_capacity {
            return Err(ImgDataErrors::BufferTooSizeMismatch);
        }
        self.img_data = img_data;
        Ok(())
    }
}

} // verus!
