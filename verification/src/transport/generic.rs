use vstd::prelude::*;

use super::error::TransportError;

verus! {

/// A line that carries Modbus frames to a board and back.
///
/// The line is modelled by the frames handed to it, the frames waiting to be
/// read, and how it treats a frame written to it: whether the write fails and
/// which frames the board answers with. Flushing and reading do not change
/// how the line treats a later write.
///
/// Each model function has a default body so that code outside Verus can
/// implement the trait; such an implementation keeps the defaults, which its
/// calls do not follow, so nothing the board contracts state holds of a board
/// over it. An implementation checked by Verus defines the model functions
/// and is held to the contracts below.
pub trait Transport {
    /// The frames handed to `write_frame` so far, oldest first, whether the
    /// write succeeded or not.
    open spec fn frames_attempted(&self) -> Seq<Seq<u8>> {
        Seq::empty()
    }

    /// The frames waiting to be read, the next one first.
    open spec fn pending(&self) -> Seq<Seq<u8>> {
        Seq::empty()
    }

    /// Whether writing `data` now fails.
    open spec fn write_fails(&self, data: Seq<u8>) -> bool {
        true
    }

    /// The frames the line delivers in answer to a successful write of `data`.
    open spec fn reply_to(&self, data: Seq<u8>) -> Seq<Seq<u8>> {
        Seq::empty()
    }

    /// Whether flushing now fails.
    open spec fn flush_fails(&self) -> bool {
        true
    }

    /// Puts `data` on the line as one frame; on success the board's answer
    /// joins the frames waiting to be read.
    fn write_frame(&mut self, data: Vec<u8>) -> (r: Result<(), TransportError>)
        ensures
            final(self).frames_attempted() == old(self).frames_attempted().push(data@),
            r is Err <==> old(self).write_fails(data@),
            r is Ok ==> final(self).pending() == old(self).pending() + old(self).reply_to(data@),
            r is Err ==> final(self).pending() == old(self).pending(),
    ;

    /// Reads the next waiting frame; it fails when none waits.
    fn read_frame(&mut self) -> (r: Result<Vec<u8>, TransportError>)
        ensures
            final(self).frames_attempted() == old(self).frames_attempted(),
            old(self).pending().len() > 0 ==> (r matches Ok(frame) && frame@ == old(
                self,
            ).pending()[0]) && final(self).pending() == old(self).pending().drop_first(),
            old(self).pending().len() == 0 ==> r is Err && final(self).pending() == old(
                self,
            ).pending(),
            forall|d: Seq<u8>| #[trigger] final(self).write_fails(d) == old(self).write_fails(d),
            forall|d: Seq<u8>| #[trigger] final(self).reply_to(d) == old(self).reply_to(d),
    ;

    /// Drops every frame waiting to be read.
    fn flush(&mut self) -> (r: Result<(), TransportError>)
        ensures
            final(self).frames_attempted() == old(self).frames_attempted(),
            r is Err <==> old(self).flush_fails(),
            r is Ok ==> final(self).pending().len() == 0,
            r is Err ==> final(self).pending() == old(self).pending(),
            forall|d: Seq<u8>| #[trigger] final(self).write_fails(d) == old(self).write_fails(d),
            forall|d: Seq<u8>| #[trigger] final(self).reply_to(d) == old(self).reply_to(d),
    ;
}

} // verus!
