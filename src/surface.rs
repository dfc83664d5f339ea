use vstd::prelude::*;

verus! {

/// How frames are handed to the display.
#[derive(Debug, Clone, Copy, PartialEq, Eq)]
pub enum PresentMode {
    /// Low latency: a newer frame replaces one still waiting.
    Mailbox,
    /// Frames wait in order for the display; always offered.
    Fifo,
}

/// Picks the surface format among those offered, given for each whether it
/// is sRGB-encoded: the first sRGB format, else the first format.
pub fn choose_format(srgb: &Vec<bool>) -> (r: usize)
    requires
        srgb@.len() > 0,
    ensures
        r < srgb@.len(),
        (exists|i: int| 0 <= i < srgb@.len() && srgb@[i]) ==> srgb@[r as int],
        forall|j: int| 0 <= j < r ==> !srgb@[j],
        !(exists|i: int| 0 <= i < srgb@.len() && srgb@[i]) ==> r == 0,
{
    let mut i: usize = 0;
    while i < srgb.len()
        invariant
            i <= srgb@.len(),
            forall|j: int| 0 <= j < i ==> !srgb@[j],
        decreases srgb@.len() - i,
    {
        if srgb[i] {
            return i;
        }
        i = i + 1;
    }
    0
}

/// Picks the presentation mode: mailbox where the surface offers it, else
/// first-in first-out.
pub fn choose_present_mode(offers_mailbox: bool) -> (r: PresentMode)
    ensures
        r == (if offers_mailbox { PresentMode::Mailbox } else { PresentMode::Fifo }),
{
    if offers_mailbox {
        PresentMode::Mailbox
    } else {
        PresentMode::Fifo
    }
}

} // verus!
