//! The two-state delimiter scanner that isolates the front-matter block.
use vstd::prelude::*;

verus! {

/// The whitespace that may trail a delimiter line.
pub open spec fn is_space(c: char) -> bool {
    c == ' ' || c == '\t' || c == '\r' || c == '\n' || c == '\x0B' || c == '\x0C'
}

/// Tells whether `c` is whitespace that may trail a delimiter line.
pub fn is_space_char(c: char) -> (r: bool)
    ensures
        r == is_space(c),
{
    c == ' ' || c == '\t' || c == '\r' || c == '\n' || c == '\x0B' || c == '\x0C'
}

/// A delimiter line: three hyphens, then nothing but whitespace.
pub open spec fn is_delimiter(line: Seq<char>) -> bool {
    &&& line.len() >= 3
    &&& line[0] == '-' && line[1] == '-' && line[2] == '-'
    &&& forall|i: int| 3 <= i < line.len() ==> is_space(#[trigger] line[i])
}

/// The views of a sequence of owned lines.
pub open spec fn lines_view(lines: Seq<String>) -> Seq<Seq<char>> {
    lines.map_values(|s: String| s@)
}

/// Line `k` is the first delimiter after the opening one.
pub open spec fn closes_at(lines: Seq<Seq<char>>, k: int) -> bool {
    &&& 1 <= k < lines.len()
    &&& is_delimiter(lines[k])
    &&& forall|j: int| 1 <= j < k ==> !is_delimiter(#[trigger] lines[j])
}

/// Why no front-matter block could be isolated.
#[derive(Debug, Clone, Copy, PartialEq, Eq, Structural)]
pub enum ScanError {
    /// The input does not start with a delimiter line.
    NoOpeningDelimiter,
    /// The opening delimiter is never closed.
    Unterminated,
}

/// The block that a whole input yields: the lines strictly between the
/// opening delimiter (which must be the first line) and the next delimiter.
pub open spec fn front_matter_of(lines: Seq<Seq<char>>) -> Result<Seq<Seq<char>>, ScanError> {
    if lines.len() == 0 || !is_delimiter(lines[0]) {
        Err(ScanError::NoOpeningDelimiter)
    } else if exists|k: int| closes_at(lines, k) {
        let k = choose|k: int| closes_at(lines, k);
        Ok(lines.subrange(1, k))
    } else {
        Err(ScanError::Unterminated)
    }
}

/// Where the scanner stands.
#[derive(Debug, Clone, Copy, PartialEq, Eq, Structural)]
pub enum ScanState {
    /// No line seen yet: the next one must open the block.
    Waiting,
    /// Inside the block.
    Started,
    /// The block was closed; further lines are ignored.
    Complete,
    /// The first line was no delimiter; further lines are ignored.
    Rejected,
}

/// Consumes lines one at a time and keeps those inside the block.
pub struct Scanner {
    pub state: ScanState,
    pub block: Vec<String>,
}

/// Tells whether `line` is a delimiter line.
pub fn is_delimiter_line(line: &str) -> (r: bool)
    ensures
        r == is_delimiter(line@),
{
    let n = line.unicode_len();
    if n < 3 {
        return false;
    }
    if line.get_char(0) != '-' || line.get_char(1) != '-' || line.get_char(2) != '-' {
        return false;
    }
    let mut i: usize = 3;
    while i < n
        invariant
            3 <= i <= n,
            n == line@.len(),
            forall|j: int| 3 <= j < i ==> is_space(#[trigger] line@[j]),
        decreases n - i,
    {
        if !is_space_char(line.get_char(i)) {
            return false;
        }
        i = i + 1;
    }
    true
}

impl Scanner {
    /// Whether the scanner still takes lines.
    pub open spec fn is_open(&self) -> bool {
        self.state == ScanState::Waiting || self.state == ScanState::Started
    }

    pub fn new() -> (r: Scanner)
        ensures
            r.state == ScanState::Waiting,
            r.block@.len() == 0,
    {
        Scanner { state: ScanState::Waiting, block: Vec::new() }
    }

    /// Takes the next line of input.
    pub fn feed(&mut self, line: String)
        ensures
            old(self).state == ScanState::Waiting ==> final(self).block@ == old(self).block@ && if is_delimiter(line@) {
                final(self).state == ScanState::Started
            } else {
                final(self).state == ScanState::Rejected
            },
            old(self).state == ScanState::Started ==> if is_delimiter(line@) {
                final(self).state == ScanState::Complete && final(self).block@ == old(self).block@
            } else {
                final(self).state == ScanState::Started && final(self).block@ == old(self).block@.push(line)
            },
            !old(self).is_open() ==> *final(self) == *old(self),
    {
        match self.state {
            ScanState::Waiting => {
                if is_delimiter_line(line.as_str()) {
                    self.state = ScanState::Started;
                } else {
                    self.state = ScanState::Rejected;
                }
            },
            ScanState::Started => {
                if is_delimiter_line(line.as_str()) {
                    self.state = ScanState::Complete;
                } else {
                    self.block.push(line);
                }
            },
            _ => {},
        }
    }

    /// The block, once the input has ended or the block was closed.
    pub fn finish(self) -> (r: Result<Vec<String>, ScanError>)
        ensures
            self.state == ScanState::Complete ==> r == Ok::<Vec<String>, ScanError>(self.block),
            self.state == ScanState::Started ==> r == Err::<Vec<String>, ScanError>(ScanError::Unterminated),
            (self.state == ScanState::Waiting || self.state == ScanState::Rejected) ==> r == Err::<
                Vec<String>,
                ScanError,
            >(ScanError::NoOpeningDelimiter),
    {
        match self.state {
            ScanState::Complete => Ok(self.block),
            ScanState::Started => Err(ScanError::Unterminated),
            _ => Err(ScanError::NoOpeningDelimiter),
        }
    }
}

/// At most one line closes the block.
proof fn lemma_closing_unique(lines: Seq<Seq<char>>, k1: int, k2: int)
    requires
        closes_at(lines, k1),
        closes_at(lines, k2),
    ensures
        k1 == k2,
{
    if k1 < k2 {
        assert(!is_delimiter(lines[k1]));
    } else if k2 < k1 {
        assert(!is_delimiter(lines[k2]));
    }
}

/// For an input that opens with a delimiter and closes it at line `k`, the
/// block is exactly the lines strictly between the two delimiters, in order.
pub proof fn lemma_block_between_delimiters(lines: Seq<Seq<char>>, k: int)
    requires
        lines.len() > 0,
        is_delimiter(lines[0]),
        closes_at(lines, k),
    ensures
        front_matter_of(lines) == Ok::<Seq<Seq<char>>, ScanError>(lines.subrange(1, k)),
{
    let c = choose|c: int| closes_at(lines, c);
    lemma_closing_unique(lines, c, k);
}

/// An input in which no delimiter closes the block yields an error.
pub proof fn lemma_unclosed_is_error(lines: Seq<Seq<char>>)
    requires
        forall|k: int| !closes_at(lines, k),
    ensures
        front_matter_of(lines) is Err,
        lines.len() > 0 && is_delimiter(lines[0]) ==> front_matter_of(lines) == Err::<
            Seq<Seq<char>>,
            ScanError,
        >(ScanError::Unterminated),
{
}

/// Scans a whole input; lines after the closing delimiter are not looked at.
pub fn scan_front_matter(lines: &Vec<String>) -> (r: Result<Vec<String>, ScanError>)
    ensures
        match r {
            Ok(b) => front_matter_of(lines_view(lines@)) == Ok::<Seq<Seq<char>>, ScanError>(
                lines_view(b@),
            ),
            Err(e) => front_matter_of(lines_view(lines@)) == Err::<Seq<Seq<char>>, ScanError>(e),
        },
{
    let ghost l = lines_view(lines@);
    let mut sc = Scanner::new();
    let mut i: usize = 0;
    while i < lines.len() && (sc.state == ScanState::Waiting || sc.state == ScanState::Started)
        invariant
            i <= lines@.len(),
            l == lines_view(lines@),
            l.len() == lines@.len(),
            (i == 0) <==> (sc.state == ScanState::Waiting),
            sc.state == ScanState::Waiting ==> sc.block@.len() == 0,
            sc.state == ScanState::Rejected ==> !is_delimiter(l[0]),
            sc.state == ScanState::Started ==> {
                &&& is_delimiter(l[0])
                &&& forall|j: int| 1 <= j < i ==> !is_delimiter(#[trigger] l[j])
                &&& lines_view(sc.block@) == l.subrange(1, i as int)
            },
            sc.state == ScanState::Complete ==> {
                &&& i >= 2
                &&& is_delimiter(l[0])
                &&& closes_at(l, i - 1)
                &&& lines_view(sc.block@) == l.subrange(1, i - 1)
            },
        decreases lines@.len() - i,
    {
        let line = lines[i].clone();
        proof {
            assert(l[i as int] == lines@[i as int]@);
        }
        let ghost before = sc.block@;
        sc.feed(line);
        proof {
            if sc.state == ScanState::Started {
                assert(lines_view(sc.block@) =~= l.subrange(1, i + 1));
            }
        }
        i = i + 1;
    }
    proof {
        if sc.state == ScanState::Complete {
            lemma_block_between_delimiters(l, i - 1);
        } else if sc.state == ScanState::Started {
            assert forall|k: int| !closes_at(l, k) by {
                if closes_at(l, k) {
                    assert(!is_delimiter(l[k]));
                }
            }
        } else if sc.state == ScanState::Waiting {
            assert(l.len() == 0);
        }
    }
    sc.finish()
}

} // verus!
