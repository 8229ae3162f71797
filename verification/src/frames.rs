//! The frame table: ten fixed lines of text, served in order.
use vstd::prelude::*;
use vstd::string::*;
use vstd::utf8::*;

verus! {

/// Number of lines in the frame table.
pub const FRAME_COUNT: usize = 10;

/// The line stored at `index`; the empty line for an index outside the table.
pub open spec fn frame_text(index: int) -> &'static str {
    if index == 0 {
        "Pieces of eight!\n"
    } else if index == 1 {
        "Polly wants a cracker.\n"
    } else if index == 2 {
        "Squawk!\n"
    } else if index == 3 {
        "Who's a pretty bird?\n"
    } else if index == 4 {
        "Hello, sailor.\n"
    } else if index == 5 {
        "Land ho!\n"
    } else if index == 6 {
        "Shiver me timbers.\n"
    } else if index == 7 {
        "Dead men tell no tales.\n"
    } else if index == 8 {
        "Walk the plank!\n"
    } else if index == 9 {
        "Party or die.\n"
    } else {
        ""
    }
}

/// The bytes a reader receives for the line at `index`.
pub open spec fn frame_bytes(index: int) -> Seq<u8> {
    frame_text(index).spec_bytes()
}

/// The length in bytes of the line at `index`.
pub open spec fn frame_len(index: int) -> nat {
    if index == 0 {
        17
    } else if index == 1 {
        23
    } else if index == 2 {
        8
    } else if index == 3 {
        21
    } else if index == 4 {
        15
    } else if index == 5 {
        9
    } else if index == 6 {
        19
    } else if index == 7 {
        24
    } else if index == 8 {
        16
    } else if index == 9 {
        14
    } else {
        0
    }
}

/// Every line of the table is plain ASCII, so it has as many bytes as
/// characters: the lengths are those of `frame_len`.
pub proof fn lemma_frame_len(index: int)
    ensures
        frame_bytes(index).len() == frame_len(index),
        frame_bytes(index).len() <= 24,
        is_ascii(frame_text(index)),
{
    reveal_strlit("Pieces of eight!\n");
    reveal_strlit("Polly wants a cracker.\n");
    reveal_strlit("Squawk!\n");
    reveal_strlit("Who's a pretty bird?\n");
    reveal_strlit("Hello, sailor.\n");
    reveal_strlit("Land ho!\n");
    reveal_strlit("Shiver me timbers.\n");
    reveal_strlit("Dead men tell no tales.\n");
    reveal_strlit("Walk the plank!\n");
    reveal_strlit("Party or die.\n");
    reveal_strlit("");
    let text = frame_text(index);
    assert(is_ascii_chars(text@));
    is_ascii_chars_encode_utf8(text@);
}

/// Looks up a line of the table. An index past the end yields the empty
/// line rather than a failure, so a caller never has to handle a miss.
pub fn frame(index: usize) -> (line: &'static str)
    ensures
        line@ == frame_text(index as int)@,
        line.spec_bytes() == frame_bytes(index as int),
        line.spec_bytes().len() == frame_len(index as int),
{
    proof {
        lemma_frame_len(index as int);
    }
    if index == 0 {
        "Pieces of eight!\n"
    } else if index == 1 {
        "Polly wants a cracker.\n"
    } else if index == 2 {
        "Squawk!\n"
    } else if index == 3 {
        "Who's a pretty bird?\n"
    } else if index == 4 {
        "Hello, sailor.\n"
    } else if index == 5 {
        "Land ho!\n"
    } else if index == 6 {
        "Shiver me timbers.\n"
    } else if index == 7 {
        "Dead men tell no tales.\n"
    } else if index == 8 {
        "Walk the plank!\n"
    } else if index == 9 {
        "Party or die.\n"
    } else {
        ""
    }
}

} // verus!
