use vstd::prelude::*;

verus! {

/// The three names a run works on: the two sources and the destination.
#[derive(Debug)]
pub struct ImgArgs {
    pub img_1: String,
    pub img_2: String,
    pub feedback: String,
}

impl ImgArgs {
    /// Gathers the two source paths and the output path.
    pub fn new(img_1: String, img_2: String, feedback: String) -> (r: Self)
        ensures
            r.img_1@ == img_1@,
            r.img_2@ == img_2@,
            r.feedback@ == feedback@,
    {
        ImgArgs { img_1, img_2, feedback }
    }
}

} // verus!
