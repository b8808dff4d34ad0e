use vstd::prelude::*;

use super::error::TransportError;
use super::generic::Transport;

verus! {

/// A transport in memory: it records the frames written to it and hands out
/// queued responses, first queued first.
pub struct MockTransport {
    pub sent_frames: Vec<Vec<u8>>,
    pub queued_responses: Vec<Vec<u8>>,
}

/// The contents of a list of frames.
pub open spec fn frames_view(frames: Seq<Vec<u8>>) -> Seq<Seq<u8>> {
    frames.map_values(|f: Vec<u8>| f@)
}

impl Transport for MockTransport {
    open spec fn frames_attempted(&self) -> Seq<Seq<u8>> {
        frames_view(self.sent_frames@)
    }

    open spec fn pending(&self) -> Seq<Seq<u8>> {
        frames_view(self.queued_responses@)
    }

    open spec fn write_fails(&self, data: Seq<u8>) -> bool {
        false
    }

    /// Nothing answers on this line: only queued responses are read.
    open spec fn reply_to(&self, data: Seq<u8>) -> Seq<Seq<u8>> {
        Seq::empty()
    }

    open spec fn flush_fails(&self) -> bool {
        false
    }

    /// Records `data` as sent; it never fails.
    fn write_frame(&mut self, data: Vec<u8>) -> (r: Result<(), TransportError>)
        ensures
            r is Ok,
            final(self).sent_frames@ == old(self).sent_frames@.push(data),
            final(self).queued_responses@ == old(self).queued_responses@,
    {
        let ghost before = self.sent_frames@;
        self.sent_frames.push(data);
        assert(frames_view(self.sent_frames@) =~= frames_view(before).push(data@));
        assert(frames_view(self.queued_responses@) =~= frames_view(self.queued_responses@)
            + Seq::<Seq<u8>>::empty());
        Ok(())
    }

    /// Hands out the oldest queued response; with none queued the line stays
    /// silent and the read times out.
    fn read_frame(&mut self) -> (r: Result<Vec<u8>, TransportError>)
        ensures
            final(self).sent_frames@ == old(self).sent_frames@,
            old(self).queued_responses@.len() > 0 ==> r == Ok::<Vec<u8>, TransportError>(
                old(self).queued_responses@[0],
            ) && final(self).queued_responses@ == old(self).queued_responses@.drop_first(),
            old(self).queued_responses@.len() == 0 ==> r == Err::<Vec<u8>, TransportError>(
                TransportError::Timeout,
            ) && final(self).queued_responses@ == old(self).queued_responses@,
    {
        if self.queued_responses.len() == 0 {
            return Err(TransportError::Timeout);
        }
        let frame = self.queued_responses.remove(0);
        assert(self.queued_responses@ =~= old(self).queued_responses@.drop_first());
        assert(frames_view(self.queued_responses@) =~= frames_view(
            old(self).queued_responses@,
        ).drop_first());
        Ok(frame)
    }

    /// Drops every queued response; it never fails.
    fn flush(&mut self) -> (r: Result<(), TransportError>)
        ensures
            r is Ok,
            final(self).sent_frames@ == old(self).sent_frames@,
            final(self).queued_responses@.len() == 0,
    {
        self.queued_responses.clear();
        assert(frames_view(self.queued_responses@) =~= Seq::<Seq<u8>>::empty());
        Ok(())
    }
}

} // verus!
