use vstd::prelude::*;
use vstd::utf8::encode_utf8;

verus! {

/// The offsets at which the lines of a text start: 0, then one past each
/// newline byte.
pub open spec fn line_starts(b: Seq<u8>) -> Seq<usize>
    decreases b.len(),
{
    if b.len() == 0 {
        seq![0]
    } else if b.last() == 10 {
        line_starts(b.drop_last()).push(b.len() as usize)
    } else {
        line_starts(b.drop_last())
    }
}

/// Where each line of a text starts, as byte offsets.
#[derive(Debug)]
pub struct LineIndex {
    pub newlines: Vec<usize>,
}

impl LineIndex {
    /// The line starts of `text`, by its UTF-8 bytes.
    pub fn new(text: &str) -> (r: LineIndex)
        ensures
            r.newlines@ == line_starts(encode_utf8(text@)),
    {
        let bytes = text.as_bytes();
        let ghost b = bytes@;
        let mut newlines: Vec<usize> = Vec::new();
        newlines.push(0);
        let mut i: usize = 0;
        assert(b.take(0) =~= Seq::<u8>::empty());
        while i < bytes.len()
            invariant
                b == bytes@,
                b == encode_utf8(text@),
                i <= b.len(),
                newlines@ == line_starts(b.take(i as int)),
            decreases b.len() - i,
        {
            assert(b.take(i + 1).drop_last() =~= b.take(i as int));
            if bytes[i] == 10 {
                newlines.push(i + 1);
            }
            i = i + 1;
        }
        assert(b.take(b.len() as int) =~= b);
        LineIndex { newlines }
    }
}

} // verus!
