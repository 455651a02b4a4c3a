//! What is painted in one frame.

use vstd::prelude::*;
use crate::lighthouse::Beacon;
use crate::sweep::{slices_are_white, Slice};

verus! {

/// The content of one frame.
#[derive(Debug, PartialEq, Eq)]
pub enum Stimulus {
    /// The whole window in one colour, white or black.
    Fill { white: bool },
    /// The sweep beam, cut into slices from left to right.
    Beam { slices: Vec<Slice> },
    /// The lighthouse beam.
    Lighthouse { beacon: Beacon },
}

/// A frame as a mathematical value.
pub enum Picture {
    Fill { white: bool },
    Beam { slices: Seq<Slice> },
    Lighthouse { beacon: Beacon },
}

impl Picture {
    /// Every colour in the frame is white at the opacity stored beside it.
    pub open spec fn is_white(self) -> bool {
        match self {
            Picture::Fill { .. } => true,
            Picture::Beam { slices } => slices_are_white(slices),
            Picture::Lighthouse { beacon } => beacon.is_white(),
        }
    }
}

impl View for Stimulus {
    type V = Picture;

    open spec fn view(&self) -> Picture {
        match self {
            Stimulus::Fill { white } => Picture::Fill { white: *white },
            Stimulus::Beam { slices } => Picture::Beam { slices: slices@ },
            Stimulus::Lighthouse { beacon } => Picture::Lighthouse { beacon: *beacon },
        }
    }
}

} // verus!
