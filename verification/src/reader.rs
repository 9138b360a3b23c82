//! Putting one message together from the pieces in which the pipe hands it out.
use vstd::prelude::*;

use crate::win32::{hresult_of, reports, ERROR_MORE_DATA};

verus! {

/// A message of which more may follow.
pub struct MessageReader {
    message: Vec<u8>,
}

impl View for MessageReader {
    type V = Seq<u8>;

    /// The bytes received so far.
    closed spec fn view(&self) -> Seq<u8> {
        self.message@
    }
}

/// What to do after a read.
pub enum ReadStep {
    /// Read again: the message goes on.
    Continue(MessageReader),
    /// Stop reading. The whole message, or nothing if it is empty or was cut off.
    Finish(Option<Vec<u8>>),
}

/// How the message stands after a read, over plain values.
pub enum ReadStepView {
    Continue(Seq<u8>),
    Finish(Option<Seq<u8>>),
}

impl View for ReadStep {
    type V = ReadStepView;

    open spec fn view(&self) -> ReadStepView {
        match *self {
            ReadStep::Continue(reader) => ReadStepView::Continue(reader@),
            ReadStep::Finish(Some(message)) => ReadStepView::Finish(Some(message@)),
            ReadStep::Finish(None) => ReadStepView::Finish(None),
        }
    }
}

/// The read failed only because the message is longer than the buffer.
pub open spec fn is_more_data(failure: Option<i32>) -> bool {
    failure == Some(hresult_of(ERROR_MORE_DATA))
}

/// A message as it is handed on: an empty one counts as none.
pub open spec fn delivered(message: Seq<u8>) -> Option<Seq<u8>> {
    if message.len() == 0 {
        None
    } else {
        Some(message)
    }
}

/// One read: it gave the bytes `chunk` after `message`, and failed as `failure` says.
pub open spec fn read_step(
    message: Seq<u8>,
    chunk: Seq<u8>,
    failure: Option<i32>,
) -> ReadStepView {
    if failure is None {
        ReadStepView::Finish(delivered(message + chunk))
    } else if is_more_data(failure) {
        ReadStepView::Continue(message + chunk)
    } else {
        ReadStepView::Finish(None)
    }
}

/// A read without a failure ends the message, which is all that came, in the order in which it
/// came, or nothing if nothing came.
pub proof fn law_good_read_ends_message(message: Seq<u8>, chunk: Seq<u8>)
    ensures
        message.len() + chunk.len() > 0 ==> read_step(message, chunk, None)
            == ReadStepView::Finish(Some(message + chunk)),
        message.len() + chunk.len() == 0 ==> read_step(message, chunk, None)
            == ReadStepView::Finish(None),
{
}

/// A read with a failure goes on exactly if the failure is that more of the message waits, whose
/// `HRESULT` is `0x8007_00EA`. It then keeps all that came; any other failure loses the message.
pub proof fn law_failed_read(message: Seq<u8>, chunk: Seq<u8>, hresult: i32)
    ensures
        hresult + 0x1_0000_0000 == 0x8007_00EA ==> read_step(message, chunk, Some(hresult))
            == ReadStepView::Continue(message + chunk),
        hresult + 0x1_0000_0000 != 0x8007_00EA ==> read_step(message, chunk, Some(hresult))
            == ReadStepView::Finish(None),
{
}

/// It does not matter how the pipe cuts up what comes: a read after a read after which more
/// waits does what one read of both pieces does.
pub proof fn law_cut_does_not_matter(
    message: Seq<u8>,
    a: Seq<u8>,
    b: Seq<u8>,
    failure: Option<i32>,
)
    ensures
        read_step(message + a, b, failure) == read_step(message, a + b, failure),
{
    assert(message + a + b =~= message + (a + b));
}

/// Reading pieces that all end in more data, after `message`.
pub open spec fn read_pieces(message: Seq<u8>, pieces: Seq<Seq<u8>>) -> ReadStepView
    decreases pieces.len(),
{
    if pieces.len() == 0 {
        ReadStepView::Continue(message)
    } else {
        match read_pieces(message, pieces.drop_last()) {
            ReadStepView::Continue(so_far) => read_step(
                so_far,
                pieces.last(),
                Some(hresult_of(ERROR_MORE_DATA)),
            ),
            ReadStepView::Finish(result) => ReadStepView::Finish(result),
        }
    }
}

/// Pieces that end in more data pile up in the order in which they came.
pub proof fn law_pieces_pile_up(message: Seq<u8>, pieces: Seq<Seq<u8>>)
    ensures
        read_pieces(message, pieces) == ReadStepView::Continue(message + pieces.flatten()),
    decreases pieces.len(),
{
    if pieces.len() == 0 {
        assert(message + pieces.flatten() =~= message);
    } else {
        law_pieces_pile_up(message, pieces.drop_last());
        assert(pieces =~= pieces.drop_last().push(pieces.last()));
        pieces.drop_last().lemma_flatten_push(pieces.last());
        assert(message + pieces.flatten() =~= message + pieces.drop_last().flatten()
            + pieces.last());
    }
}

impl MessageReader {
    /// A message of which nothing has been read.
    pub fn new() -> (reader: MessageReader)
        ensures
            reader@ == Seq::<u8>::empty(),
    {
        MessageReader { message: Vec::new() }
    }

    /// Takes in what one read of the pipe gave: the bytes, and the `HRESULT` of its failure.
    pub fn read_pipe_data(self, chunk: &[u8], failure: Option<i32>) -> (step: ReadStep)
        ensures
            step@ == read_step(self@, chunk@, failure),
    {
        let mut message = self.message;
        match failure {
            None => {
                append(&mut message, chunk);
                if message.len() == 0 {
                    ReadStep::Finish(None)
                } else {
                    ReadStep::Finish(Some(message))
                }
            },
            Some(hresult) => {
                if reports(hresult, ERROR_MORE_DATA) {
                    append(&mut message, chunk);
                    ReadStep::Continue(MessageReader { message })
                } else {
                    ReadStep::Finish(None)
                }
            },
        }
    }
}

/// Appends `chunk` to `message`.
fn append(message: &mut Vec<u8>, chunk: &[u8])
    ensures
        final(message)@ == old(message)@ + chunk@,
{
    message.extend_from_slice(chunk);
    assert(message@ =~= old(message)@ + chunk@);
}

} // verus!
