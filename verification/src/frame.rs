use vstd::prelude::*;

verus! {

/// Status code and reason that a peer gave when it closed its socket.
#[derive(Clone, Debug, PartialEq, Eq)]
pub struct CloseInfo {
    pub code: u16,
    pub reason: String,
}

/// One message on a connection. The relay passes frames through unread,
/// except for text frames that arrive while no Horizon is attached.
#[derive(Clone, Debug, PartialEq, Eq)]
pub enum Frame {
    Text(String),
    Binary(Vec<u8>),
    Ping(Vec<u8>),
    Pong(Vec<u8>),
    Close(Option<CloseInfo>),
}

/// What a frame holds, as the contracts see it.
pub enum FrameView {
    Text(Seq<char>),
    Binary(Seq<u8>),
    Ping(Seq<u8>),
    Pong(Seq<u8>),
    Close(Option<(u16, Seq<char>)>),
}

impl View for Frame {
    type V = FrameView;

    open spec fn view(&self) -> FrameView {
        match *self {
            Frame::Text(text) => FrameView::Text(text@),
            Frame::Binary(bytes) => FrameView::Binary(bytes@),
            Frame::Ping(bytes) => FrameView::Ping(bytes@),
            Frame::Pong(bytes) => FrameView::Pong(bytes@),
            Frame::Close(Some(info)) => FrameView::Close(Some((info.code, info.reason@))),
            Frame::Close(None) => FrameView::Close(None),
        }
    }
}

fn copy_bytes(bytes: &Vec<u8>) -> (copy: Vec<u8>)
    ensures
        copy@ == bytes@,
{
    let mut copy: Vec<u8> = Vec::new();
    let mut i: usize = 0;
    while i < bytes.len()
        invariant
            0 <= i <= bytes@.len(),
            copy@ == bytes@.take(i as int),
        decreases bytes@.len() - i,
    {
        copy.push(bytes[i]);
        assert(copy@ =~= bytes@.take(i + 1));
        i = i + 1;
    }
    assert(bytes@.take(bytes@.len() as int) =~= bytes@);
    copy
}

impl Frame {
    /// A second frame that holds what this one holds: what goes out where
    /// one frame is offered to several peers.
    pub fn copy(&self) -> (copy: Frame)
        ensures
            copy@ == self@,
    {
        match self {
            Frame::Text(text) => Frame::Text(text.clone()),
            Frame::Binary(bytes) => Frame::Binary(copy_bytes(bytes)),
            Frame::Ping(bytes) => Frame::Ping(copy_bytes(bytes)),
            Frame::Pong(bytes) => Frame::Pong(copy_bytes(bytes)),
            Frame::Close(Some(info)) => Frame::Close(
                Some(CloseInfo { code: info.code, reason: info.reason.clone() }),
            ),
            Frame::Close(None) => Frame::Close(None),
        }
    }

    /// The close signal that the relay itself sends: a close frame that
    /// carries no status.
    pub fn close_signal() -> (frame: Frame)
        ensures
            frame == Frame::Close(None),
    {
        Frame::Close(None)
    }

    /// Whether this frame ends the connection it is written to.
    pub fn is_close(&self) -> (b: bool)
        ensures
            b == (self is Close),
    {
        match self {
            Frame::Close(_) => true,
            _ => false,
        }
    }
}

} // verus!
