//! The cancellation message: four bytes that no HTTP request opens with.

use vstd::prelude::*;

verus! {

/// The four bytes that ask a listener to shut down.
pub const EXIT: [u8; 4] = [1, 3, 3, 7];

/// The cancellation message as a sequence of bytes.
pub open spec fn exit_bytes() -> Seq<u8> {
    seq![1u8, 3u8, 3u8, 7u8]
}

/// `EXIT` holds the cancellation message, so a connection that sends `EXIT`
/// and nothing before it is taken as a cancellation.
pub proof fn exit_is_the_message()
    ensures
        EXIT@ == exit_bytes(),
        opens_with_exit(EXIT@),
{
    assert(EXIT@ =~= exit_bytes());
    assert(EXIT@.subrange(0, 4) =~= EXIT@);
}

/// Whether `data` opens with the cancellation message.
pub open spec fn opens_with_exit(data: Seq<u8>) -> bool {
    data.len() >= 4 && data.subrange(0, 4) == exit_bytes()
}

/// Tells whether the bytes read from a connection open with the cancellation message.
pub fn is_exit(buffer: &[u8]) -> (r: bool)
    ensures
        r == opens_with_exit(buffer@),
{
    if buffer.len() < 4 {
        return false;
    }
    let r = buffer[0] == EXIT[0] && buffer[1] == EXIT[1] && buffer[2] == EXIT[2] && buffer[3] == EXIT[3];
    proof {
        if r {
            assert(buffer@.subrange(0, 4) =~= exit_bytes());
        } else {
            assert(buffer@.subrange(0, 4)[0] == buffer@[0]);
            assert(buffer@.subrange(0, 4)[1] == buffer@[1]);
            assert(buffer@.subrange(0, 4)[2] == buffer@[2]);
            assert(buffer@.subrange(0, 4)[3] == buffer@[3]);
        }
    }
    r
}

/// Whether `b` may stand in the method of an HTTP request: a letter, a digit,
/// or one of the fifteen marks that a token admits.
pub open spec fn is_method_byte(b: u8) -> bool {
    ||| 0x41 <= b <= 0x5a
    ||| 0x61 <= b <= 0x7a
    ||| 0x30 <= b <= 0x39
    ||| b == 0x21
    ||| 0x23 <= b <= 0x27
    ||| b == 0x2a
    ||| b == 0x2b
    ||| b == 0x2d
    ||| b == 0x2e
    ||| b == 0x5e
    ||| b == 0x5f
    ||| b == 0x60
    ||| b == 0x7c
    ||| b == 0x7e
}

/// No request opens like the cancellation message: a request opens with its
/// method, or with line ends before it, and the first byte of the message is
/// neither a byte of a method nor a line end.
pub proof fn exit_opens_no_request(data: Seq<u8>)
    requires
        opens_with_exit(data),
    ensures
        !is_method_byte(data[0]),
        data[0] != 0x0d,
        data[0] != 0x0a,
{
    assert(data[0] == data.subrange(0, 4)[0]);
}

} // verus!
