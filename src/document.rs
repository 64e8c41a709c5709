//! Turning scanned lines into the source document, and framing the target one.
use vstd::prelude::*;
use crate::keys::{normalize_key, normalized_line};
use crate::scan::{front_matter_of, lines_view, scan_front_matter, ScanError};

verus! {

/// Lines joined with a line break between each two.
pub open spec fn joined(lines: Seq<Seq<char>>) -> Seq<char>
    decreases lines.len(),
{
    if lines.len() == 0 {
        Seq::empty()
    } else if lines.len() == 1 {
        lines[0]
    } else {
        joined(lines.drop_last()) + seq!['\n'] + lines.last()
    }
}

/// Each line with its key lower-cased.
pub open spec fn normalized_lines(lines: Seq<Seq<char>>) -> Seq<Seq<char>> {
    lines.map_values(|l: Seq<char>| normalized_line(l))
}

/// The source document that a block of lines gives: keys lower-cased, lines
/// joined.
pub open spec fn block_document(block: Seq<Seq<char>>) -> Seq<char> {
    joined(normalized_lines(block))
}

/// Normalizes the key of every line of a block and joins the lines.
pub fn normalize_block(block: &Vec<String>) -> (r: String)
    ensures
        r@ == block_document(lines_view(block@)),
{
    let ghost norm = normalized_lines(lines_view(block@));
    let mut r = String::new();
    let mut i: usize = 0;
    proof {
        reveal_strlit("\n");
        assert(norm.subrange(0, 0) =~= Seq::<Seq<char>>::empty());
    }
    while i < block.len()
        invariant
            i <= block@.len(),
            norm == normalized_lines(lines_view(block@)),
            norm.len() == block@.len(),
            r@ == joined(norm.subrange(0, i as int)),
            "\n"@ == seq!['\n'],
        decreases block@.len() - i,
    {
        let line = normalize_key(block[i].as_str());
        proof {
            assert(norm[i as int] == line@);
            assert(norm.subrange(0, i + 1).drop_last() =~= norm.subrange(0, i as int));
        }
        if i == 0 {
            r = line;
            proof {
                assert(norm.subrange(0, 1) =~= seq![line@]);
            }
        } else {
            r.append("\n");
            r.append(line.as_str());
        }
        i = i + 1;
    }
    proof {
        assert(norm.subrange(0, i as int) =~= norm);
    }
    r
}

/// Isolates the front-matter block of an input and turns it into the source
/// document.
pub fn source_document(lines: &Vec<String>) -> (r: Result<String, ScanError>)
    ensures
        match front_matter_of(lines_view(lines@)) {
            Ok(b) => r == Ok::<String, ScanError>(r->Ok_0) && r->Ok_0@ == block_document(b),
            Err(e) => r == Err::<String, ScanError>(e),
        },
{
    match scan_front_matter(lines) {
        Ok(block) => Ok(normalize_block(&block)),
        Err(e) => Err(e),
    }
}

/// The target document: the encoded record between two `+++` lines.
pub open spec fn framed(body: Seq<char>) -> Seq<char> {
    let open = seq!['+', '+', '+', '\n'];
    let close = seq!['+', '+', '+'];
    if body.len() == 0 || body.last() == '\n' {
        open + body + close
    } else {
        open + body + seq!['\n'] + close
    }
}

/// Wraps an encoded record in the target delimiters, each on a line of its own.
pub fn frame_target(body: &str) -> (r: String)
    ensures
        r@ == framed(body@),
{
    proof {
        reveal_strlit("+++\n");
        reveal_strlit("+++");
        reveal_strlit("\n");
    }
    let n = body.unicode_len();
    let mut r = String::from_str("+++\n");
    r.append(body);
    if n > 0 && body.get_char(n - 1) != '\n' {
        r.append("\n");
    }
    r.append("+++");
    r
}

} // verus!
