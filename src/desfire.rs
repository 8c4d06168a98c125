use vstd::prelude::*;

use crate::error::DecodeError;

verus! {

/// A DESFire APDU command that the HSL card accepts.
#[derive(Debug, Clone, Copy, PartialEq, Eq, Structural)]
pub enum Command {
    /// DESFire GetVersion.
    GetVersion,
    /// Lists the application ids installed on the card.
    GetApplicationIds,
    /// Selects the HSL application; answered with `Response::OperationOk`.
    SelectHsl,
    /// Reads the application info file: version, instance id and so on.
    ReadAppInfo,
    /// Reads the control info file.
    ReadControlInfo,
    /// Reads the period pass (season ticket) file.
    ReadPeriodPass,
    /// Reads the stored value file.
    ReadStoredValue,
    /// Reads the active e-ticket.
    ReadETicket,
    /// Reads the log of the most recent transactions.
    ReadHistory,
    /// Reads what remains after an answer that ended in `Response::MoreData`.
    ReadNext,
}

/// The bytes of each command.
pub open spec fn command_bytes(c: Command) -> Seq<u8> {
    match c {
        Command::GetVersion => seq![0x90u8, 0x60, 0x00, 0x00, 0x00],
        Command::GetApplicationIds => seq![0x90u8, 0x6A, 0x00, 0x00, 0x00],
        Command::SelectHsl => seq![0x90u8, 0x5A, 0x00, 0x00, 0x03, 0x14, 0x20, 0xEF, 0x00],
        Command::ReadAppInfo => seq![0x90u8, 0xBD, 0x00, 0x00, 0x07, 0x08, 0x00, 0x00, 0x00, 0x0B, 0x00, 0x00, 0x00],
        Command::ReadControlInfo => seq![0x90u8, 0xBD, 0x00, 0x00, 0x07, 0x00, 0x00, 0x00, 0x00, 0x0A, 0x00, 0x00, 0x00],
        Command::ReadPeriodPass => seq![0x90u8, 0xBD, 0x00, 0x00, 0x07, 0x01, 0x00, 0x00, 0x00, 0x23, 0x00, 0x00, 0x00],
        Command::ReadStoredValue => seq![0x90u8, 0xBD, 0x00, 0x00, 0x07, 0x02, 0x00, 0x00, 0x00, 0x0C, 0x00, 0x00, 0x00],
        Command::ReadETicket => seq![0x90u8, 0xBD, 0x00, 0x00, 0x07, 0x03, 0x00, 0x00, 0x00, 0x2D, 0x00, 0x00, 0x00],
        Command::ReadHistory => seq![0x90u8, 0xBB, 0x00, 0x00, 0x07, 0x04, 0x00, 0x00, 0x00, 0x00, 0x00, 0x00, 0x00],
        Command::ReadNext => seq![0x90u8, 0xAF, 0x00, 0x00, 0x00],
    }
}

impl Command {
    /// The APDU bytes to send for this command.
    pub fn bytes(&self) -> (r: Vec<u8>)
        ensures
            r@ == command_bytes(*self),
    {
        match *self {
            Command::GetVersion => vec![0x90u8, 0x60, 0x00, 0x00, 0x00],
            Command::GetApplicationIds => vec![0x90u8, 0x6A, 0x00, 0x00, 0x00],
            Command::SelectHsl => vec![0x90u8, 0x5A, 0x00, 0x00, 0x03, 0x14, 0x20, 0xEF, 0x00],
            Command::ReadAppInfo => vec![0x90u8, 0xBD, 0x00, 0x00, 0x07, 0x08, 0x00, 0x00, 0x00, 0x0B, 0x00, 0x00, 0x00],
            Command::ReadControlInfo => vec![0x90u8, 0xBD, 0x00, 0x00, 0x07, 0x00, 0x00, 0x00, 0x00, 0x0A, 0x00, 0x00, 0x00],
            Command::ReadPeriodPass => vec![0x90u8, 0xBD, 0x00, 0x00, 0x07, 0x01, 0x00, 0x00, 0x00, 0x23, 0x00, 0x00, 0x00],
            Command::ReadStoredValue => vec![0x90u8, 0xBD, 0x00, 0x00, 0x07, 0x02, 0x00, 0x00, 0x00, 0x0C, 0x00, 0x00, 0x00],
            Command::ReadETicket => vec![0x90u8, 0xBD, 0x00, 0x00, 0x07, 0x03, 0x00, 0x00, 0x00, 0x2D, 0x00, 0x00, 0x00],
            Command::ReadHistory => vec![0x90u8, 0xBB, 0x00, 0x00, 0x07, 0x04, 0x00, 0x00, 0x00, 0x00, 0x00, 0x00, 0x00],
            Command::ReadNext => vec![0x90u8, 0xAF, 0x00, 0x00, 0x00],
        }
    }
}

/// The status trailer that the card appends to each answer.
#[derive(Debug, Clone, Copy, PartialEq, Eq, Structural)]
pub enum Response {
    /// DESFire OPERATION_OK.
    OperationOk,
    /// The error status that the card answers with.
    Error,
    /// DESFire ADDITIONAL_FRAME: more data can be read with `Command::ReadNext`.
    MoreData,
}

/// The two bytes of each trailer.
pub open spec fn response_bytes(r: Response) -> Seq<u8> {
    match r {
        Response::OperationOk => seq![0x91u8, 0x00],
        Response::Error => seq![0x91u8, 0x9D],
        Response::MoreData => seq![0x91u8, 0xAF],
    }
}

/// Whether `chunk` ends in the trailer of `r`.
pub open spec fn ends_with_trailer(chunk: Seq<u8>, r: Response) -> bool {
    chunk.len() >= 2 && chunk.subrange(chunk.len() - 2, chunk.len() as int) == response_bytes(r)
}

impl Response {
    /// The two bytes of this trailer.
    pub fn bytes(&self) -> (r: Vec<u8>)
        ensures
            r@ == response_bytes(*self),
    {
        match *self {
            Response::OperationOk => vec![0x91u8, 0x00],
            Response::Error => vec![0x91u8, 0x9D],
            Response::MoreData => vec![0x91u8, 0xAF],
        }
    }

    /// Whether `bytes` is exactly this trailer.
    pub fn matches(&self, bytes: &[u8]) -> (r: bool)
        ensures
            r == (bytes@ == response_bytes(*self)),
    {
        let expected = self.bytes();
        if bytes.len() != 2 {
            return false;
        }
        let same = bytes[0] == expected[0] && bytes[1] == expected[1];
        if same {
            assert(bytes@ =~= expected@);
        }
        same
    }

    /// Whether a whole answer from the card ends in this trailer.
    pub fn ends(&self, chunk: &[u8]) -> (r: bool)
        ensures
            r == ends_with_trailer(chunk@, *self),
    {
        let expected = self.bytes();
        let n = chunk.len();
        if n < 2 {
            return false;
        }
        let same = chunk[n - 2] == expected[0] && chunk[n - 1] == expected[1];
        let ghost tail = chunk@.subrange(n - 2, n as int);
        if same {
            assert(tail =~= expected@);
        } else {
            assert(tail[0] == chunk@[n - 2] && tail[1] == chunk@[n - 1]);
        }
        same
    }
}

/// An answer without its two status bytes.
pub open spec fn payload(chunk: Seq<u8>) -> Seq<u8> {
    chunk.subrange(0, chunk.len() - 2)
}

/// Every answer is long enough to hold a status trailer.
pub open spec fn all_framed(chunks: Seq<Seq<u8>>) -> bool {
    forall|i: int| 0 <= i < chunks.len() ==> #[trigger] chunks[i].len() >= 2
}

/// The payloads of the answers, in the order they were read.
pub open spec fn assembled(chunks: Seq<Seq<u8>>) -> Seq<u8>
    decreases chunks.len(),
{
    if chunks.len() == 0 {
        Seq::empty()
    } else {
        assembled(chunks.drop_last()) + payload(chunks.last())
    }
}

/// The answers as byte sequences.
pub open spec fn chunks_view(chunks: Seq<Vec<u8>>) -> Seq<Seq<u8>> {
    chunks.map_values(|c: Vec<u8>| c@)
}

/// Stitches the answers of a read and its continuation reads into one
/// buffer: the status trailer of each answer, the last one included, is
/// dropped and the payloads are joined in order. An answer shorter than a
/// trailer gives `OutOfRange`.
pub fn assemble_frames(chunks: &Vec<Vec<u8>>) -> (r: Result<Vec<u8>, DecodeError>)
    ensures
        r is Ok <==> all_framed(chunks_view(chunks@)),
        r matches Ok(bytes) ==> bytes@ == assembled(chunks_view(chunks@)),
        r matches Err(e) ==> e == DecodeError::OutOfRange,
{
    let ghost cv = chunks_view(chunks@);
    let mut out: Vec<u8> = Vec::new();
    let mut i: usize = 0;
    while i < chunks.len()
        invariant
            0 <= i <= chunks@.len(),
            cv == chunks_view(chunks@),
            all_framed(cv.subrange(0, i as int)),
            out@ == assembled(cv.subrange(0, i as int)),
        decreases chunks@.len() - i,
    {
        let chunk = &chunks[i];
        let n = chunk.len();
        if n < 2 {
            assert(cv[i as int].len() < 2);
            return Err(DecodeError::OutOfRange);
        }
        let ghost before = out@;
        let mut j: usize = 0;
        while j < n - 2
            invariant
                0 <= j <= n - 2,
                n == chunk@.len(),
                out@ == before + chunk@.subrange(0, j as int),
            decreases n - 2 - j,
        {
            out.push(chunk[j]);
            assert(chunk@.subrange(0, j + 1) =~= chunk@.subrange(0, j as int).push(chunk@[j as int]));
            j = j + 1;
        }
        proof {
            let next = cv.subrange(0, i + 1);
            assert(next.drop_last() =~= cv.subrange(0, i as int));
            assert(next.last() == chunk@);
            assert(out@ =~= before + payload(chunk@));
            assert forall|k: int| 0 <= k < next.len() implies #[trigger] next[k].len() >= 2 by {
                if k < i {
                    assert(next[k] == cv.subrange(0, i as int)[k]);
                }
            }
        }
        i = i + 1;
    }
    assert(cv.subrange(0, chunks@.len() as int) =~= cv);
    Ok(out)
}

/// Joining an answer that ends in the more-data trailer with one that ends
/// in the ok trailer gives the two payloads, in order, without their
/// trailers.
pub proof fn lemma_two_frames(payload_a: Seq<u8>, payload_b: Seq<u8>)
    ensures
        assembled(
            seq![payload_a + response_bytes(Response::MoreData), payload_b + response_bytes(Response::OperationOk)],
        ) == payload_a + payload_b,
{
    let a = payload_a + response_bytes(Response::MoreData);
    let b = payload_b + response_bytes(Response::OperationOk);
    let chunks = seq![a, b];
    assert(payload(a) =~= payload_a);
    assert(payload(b) =~= payload_b);
    assert(chunks.drop_last() =~= seq![a]);
    assert(seq![a].drop_last() =~= Seq::<Seq<u8>>::empty());
    assert(assembled(seq![a]) == assembled(Seq::<Seq<u8>>::empty()) + payload(a));
    assert(assembled(seq![a]) =~= payload_a);
}

} // verus!
