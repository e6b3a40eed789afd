//! The frames of an HTTP body.

use crate::buffer::content;
use bytes::Bytes;
use http::HeaderMap;
use vstd::prelude::*;

verus! {

/// One frame of an HTTP body.
#[derive(Debug)]
pub enum BodyFrame {
    /// A chunk of data.
    Data(Bytes),
    /// Trailing headers.
    Trailers(HeaderMap),
}

impl BodyFrame {
    /// The data that the frame carries: none for trailers.
    pub open spec fn data(self) -> Seq<u8> {
        match self {
            BodyFrame::Data(d) => content(d),
            BodyFrame::Trailers(_) => Seq::empty(),
        }
    }
}

/// The data of a run of frames, joined.
pub open spec fn data_of(frames: Seq<BodyFrame>) -> Seq<u8>
    decreases frames.len(),
{
    if frames.len() == 0 {
        Seq::empty()
    } else {
        data_of(frames.drop_last()) + frames.last().data()
    }
}

pub(crate) proof fn lemma_data_of_push(frames: Seq<BodyFrame>, frame: BodyFrame)
    ensures
        data_of(frames.push(frame)) == data_of(frames) + frame.data(),
{
    assert(frames.push(frame).drop_last() =~= frames);
}

pub(crate) proof fn lemma_data_of_split(frames: Seq<BodyFrame>, i: int)
    requires
        0 <= i <= frames.len(),
    ensures
        data_of(frames) == data_of(frames.take(i)) + data_of(frames.skip(i)),
    decreases frames.len(),
{
    if i == frames.len() {
        assert(frames.take(i) =~= frames);
        assert(frames.skip(i) =~= Seq::empty());
    } else {
        lemma_data_of_split(frames.drop_last(), i);
        assert(frames.drop_last().take(i) =~= frames.take(i));
        assert(frames.drop_last().skip(i) =~= frames.skip(i).drop_last());
        assert(frames.skip(i).last() == frames.last());
    }
}

/// The data of frames is that of each, joined in their order; a chunk is its
/// bytes, and trailers are none.
pub proof fn lemma_data_joins(a: Seq<BodyFrame>, b: Seq<BodyFrame>, chunk: Bytes, trailers: HeaderMap)
    ensures
        data_of(a + b) == data_of(a) + data_of(b),
        data_of(Seq::empty()) == Seq::<u8>::empty(),
        data_of(seq![BodyFrame::Data(chunk)]) == content(chunk),
        data_of(seq![BodyFrame::Trailers(trailers)]) == Seq::<u8>::empty(),
{
    lemma_data_of_split(a + b, a.len() as int);
    assert((a + b).take(a.len() as int) =~= a);
    assert((a + b).skip(a.len() as int) =~= b);
    let none = Seq::<BodyFrame>::empty();
    assert(data_of(none) =~= Seq::empty());
    lemma_data_of_push(none, BodyFrame::Data(chunk));
    assert(none.push(BodyFrame::Data(chunk)) =~= seq![BodyFrame::Data(chunk)]);
    assert(Seq::<u8>::empty() + content(chunk) =~= content(chunk));
    lemma_data_of_push(none, BodyFrame::Trailers(trailers));
    assert(none.push(BodyFrame::Trailers(trailers)) =~= seq![BodyFrame::Trailers(trailers)]);
}

} // verus!
