use vstd::prelude::*;

verus! {

/// A position in buffer coordinates: `x` is the column, `y` the row.
#[derive(Clone, Copy, Debug, PartialEq, Eq, Structural)]
pub struct Location {
    pub x: u16,
    pub y: u16,
}

/// The document: its lines in row order, and the file it came from, if any.
pub struct Buffer {
    pub lines: Vec<String>,
    file_name: Option<String>,
}

/// Why a document could not be stored.
#[derive(Clone, Copy, Debug, PartialEq, Eq, Structural)]
pub enum SaveError {
    /// The document is tied to no file.
    NoDestination,
}

/// What storing a document writes: `text` into the file at `path`.
pub struct SaveRequest {
    pub path: String,
    pub text: String,
}

/// The line `l` with `c` inserted at column `col`, clamped to its length.
pub open spec fn line_with(l: Seq<char>, c: char, col: int) -> Seq<char> {
    let k = if col < l.len() { col } else { l.len() as int };
    l.take(k).push(c) + l.skip(k)
}

/// The lines after inserting `c` at `loc`: past the append row nothing
/// changes, at the append row a new line holding `c` is added, and otherwise
/// `c` goes into the line at the clamped column.
pub open spec fn inserted(lines: Seq<Seq<char>>, c: char, loc: Location) -> Seq<Seq<char>> {
    if loc.y > lines.len() {
        lines
    } else if loc.y == lines.len() {
        lines.push(seq![c])
    } else {
        lines.update(loc.y as int, line_with(lines[loc.y as int], c, loc.x as int))
    }
}

/// Inserting on the append row adds exactly one line, which holds just the
/// inserted character, and leaves the others as they were.
pub proof fn lemma_insert_appends(lines: Seq<Seq<char>>, c: char, loc: Location)
    requires
        loc.y == lines.len(),
    ensures
        inserted(lines, c, loc).len() == lines.len() + 1,
        inserted(lines, c, loc).last() == seq![c],
        inserted(lines, c, loc).take(lines.len() as int) == lines,
{
    assert(inserted(lines, c, loc).take(lines.len() as int) =~= lines);
}

/// Length of row `row`, or 0 past the last line.
pub open spec fn line_len(lines: Seq<Seq<char>>, row: int) -> nat {
    if 0 <= row < lines.len() {
        lines[row].len()
    } else {
        0
    }
}

/// A line with one trailing carriage return removed.
pub open spec fn strip_cr(l: Seq<char>) -> Seq<char> {
    if l.len() > 0 && l.last() == '\r' {
        l.drop_last()
    } else {
        l
    }
}

/// Reading `s` from the left: the lines finished by a line feed so far, and
/// the characters of the line still open.
pub open spec fn scan_lines(s: Seq<char>) -> (Seq<Seq<char>>, Seq<char>)
    decreases s.len(),
{
    if s.len() == 0 {
        (Seq::empty(), Seq::empty())
    } else {
        let prev = scan_lines(s.drop_last());
        if s.last() == '\n' {
            (prev.0.push(strip_cr(prev.1)), Seq::empty())
        } else {
            (prev.0, prev.1.push(s.last()))
        }
    }
}

/// The lines of a text: split at each line feed (a carriage return before
/// it is dropped too); a final terminator opens no empty last line.
pub open spec fn split_lines(s: Seq<char>) -> Seq<Seq<char>> {
    let r = scan_lines(s);
    if r.1.len() == 0 {
        r.0
    } else {
        r.0.push(r.1)
    }
}

/// The text that stores `lines`: each line followed by one line feed.
pub open spec fn text_of(lines: Seq<Seq<char>>) -> Seq<char>
    decreases lines.len(),
{
    if lines.len() == 0 {
        Seq::empty()
    } else {
        text_of(lines.drop_last()) + lines.last().push('\n')
    }
}

/// No carriage return stands right before a line feed.
pub open spec fn no_crlf(s: Seq<char>) -> bool {
    forall|i: int| 0 <= i < s.len() - 1 ==> !(#[trigger] s[i] == '\r' && s[i + 1] == '\n')
}

/// The text ends with a line terminator, or is empty.
pub open spec fn terminated(s: Seq<char>) -> bool {
    s.len() == 0 || s.last() == '\n'
}

proof fn lemma_scan_text(s: Seq<char>)
    requires
        no_crlf(s),
    ensures
        text_of(scan_lines(s).0) + scan_lines(s).1 == s,
        scan_lines(s).1.len() > 0 ==> scan_lines(s).1.last() == s.last(),
    decreases s.len(),
{
    if s.len() > 0 {
        let p = s.drop_last();
        assert(no_crlf(p)) by {
            assert forall|i: int| 0 <= i < p.len() - 1 implies !(#[trigger] p[i] == '\r' && p[i + 1] == '\n') by {
                assert(p[i] == s[i] && p[i + 1] == s[i + 1]);
            }
        }
        lemma_scan_text(p);
        let prev = scan_lines(p);
        if s.last() == '\n' {
            if prev.1.len() > 0 {
                assert(s[s.len() - 2] == p.last());
                assert(prev.1.last() != '\r');
            }
            assert(strip_cr(prev.1) == prev.1);
            let d = prev.0.push(prev.1);
            assert(d.drop_last() =~= prev.0);
            assert(s =~= p.push(s.last()));
            assert(text_of(d) == text_of(prev.0) + prev.1.push('\n'));
            assert(text_of(d) + Seq::<char>::empty() =~= s);
        } else {
            assert(s =~= p.push(s.last()));
            assert(text_of(prev.0) + prev.1.push(s.last()) =~= s);
        }
    }
}

/// Storing the lines read from a text gives that text back, character for
/// character, when the text ends with a line feed (or is empty) and uses
/// bare line feeds as terminators.
pub proof fn lemma_save_load_round_trip(s: Seq<char>)
    requires
        terminated(s),
        no_crlf(s),
    ensures
        text_of(split_lines(s)) == s,
{
    lemma_scan_text(s);
    let r = scan_lines(s);
    if s.len() > 0 {
        assert(r.1.len() == 0);
    }
    assert(split_lines(s) == r.0);
    assert(text_of(r.0) + r.1 =~= text_of(r.0));
}

/// Relies on String::push: the character is appended to the string.
#[verifier::external_body]
fn push_char(s: &mut String, c: char)
    ensures
        final(s)@ == old(s)@.push(c),
{
    s.push(c);
}

impl Buffer {
    /// The document as a sequence of lines of characters.
    pub closed spec fn model(&self) -> Seq<Seq<char>> {
        self.lines@.map_values(|l: String| l@)
    }

    /// The file the document is tied to, if any.
    pub closed spec fn path(&self) -> Option<Seq<char>> {
        match self.file_name {
            Some(f) => Some(f@),
            None => None,
        }
    }

    /// An empty document with no file.
    pub fn new() -> (r: Buffer)
        ensures
            r.model() == Seq::<Seq<char>>::empty(),
            r.path() is None,
    {
        let r = Buffer { lines: Vec::new(), file_name: None };
        assert(r.model() =~= Seq::<Seq<char>>::empty());
        r
    }

    /// The document read from `contents`, tied to the file `file_name`.
    pub fn load(file_name: &str, contents: &str) -> (r: Buffer)
        ensures
            r.model() == split_lines(contents@),
            r.path() == Some(file_name@),
    {
        let mut lines: Vec<String> = Vec::new();
        let mut cur = String::new();
        let chars = contents.chars();
        for ch in it: chars
            invariant
                it.seq() == contents@,
                scan_lines(contents@.take(it.index())) == (
                    lines@.map_values(|l: String| l@),
                    cur@,
                ),
        {
            let ghost before = contents@.take(it.index());
            proof {
                assert(contents@.take(it.index() + 1).drop_last() =~= before);
            }
            if ch == '\n' {
                let mut line = String::new();
                let n = cur.as_str().unicode_len();
                if n > 0 && cur.as_str().get_char(n - 1) == '\r' {
                    line = String::from_str(cur.as_str().substring_char(0, n - 1));
                } else {
                    line = cur;
                }
                assert(line@ =~= strip_cr(scan_lines(before).1));
                lines.push(line);
                cur = String::new();
            } else {
                push_char(&mut cur, ch);
            }
            proof {
                assert(lines@.map_values(|l: String| l@) =~= scan_lines(contents@.take(it.index() + 1)).0);
            }
        }
        proof {
            assert(contents@.take(contents@.len() as int) =~= contents@);
        }
        if cur.as_str().unicode_len() > 0 {
            lines.push(cur);
        }
        let r = Buffer { lines, file_name: Some(String::from_str(file_name)) };
        assert(r.model() =~= split_lines(contents@));
        r
    }

    /// The text that stores the document: each line followed by a line feed.
    pub fn text(&self) -> (r: String)
        ensures
            r@ == text_of(self.model()),
    {
        let mut out = String::new();
        let mut i: usize = 0;
        while i < self.lines.len()
            invariant
                i <= self.lines.len(),
                out@ == text_of(self.model().take(i as int)),
            decreases self.lines.len() - i,
        {
            out.append(self.lines[i].as_str());
            push_char(&mut out, '\n');
            proof {
                let t = self.model().take(i + 1);
                assert(t.drop_last() =~= self.model().take(i as int));
            }
            i = i + 1;
        }
        assert(self.model().take(i as int) =~= self.model());
        out
    }

    /// What storing the document writes, or `NoDestination` when it is tied
    /// to no file.
    pub fn save(&self) -> (r: Result<SaveRequest, SaveError>)
        ensures
            self.path() is None ==> r == Err::<SaveRequest, SaveError>(SaveError::NoDestination),
            self.path() is Some ==> r is Ok,
            r matches Ok(req) ==> Some(req.path@) == self.path() && req.text@ == text_of(self.model()),
    {
        match &self.file_name {
            Some(f) => Ok(SaveRequest { path: f.clone(), text: self.text() }),
            None => Err(SaveError::NoDestination),
        }
    }

    pub fn is_empty(&self) -> (r: bool)
        ensures
            r == (self.model().len() == 0),
    {
        self.lines.len() == 0
    }

    pub fn line_count(&self) -> (r: usize)
        ensures
            r == self.model().len(),
    {
        self.lines.len()
    }

    /// The text of line `row`.
    pub fn line(&self, row: usize) -> (r: &str)
        requires
            row < self.model().len(),
        ensures
            r@ == self.model()[row as int],
    {
        self.lines[row].as_str()
    }

    /// Number of characters on `row`; 0 for a row past the last line.
    pub fn line_length(&self, row: usize) -> (r: usize)
        ensures
            r == line_len(self.model(), row as int),
    {
        if row >= self.lines.len() {
            0
        } else {
            self.lines[row].as_str().unicode_len()
        }
    }

    /// Inserts `character` at `loc`, clamping the column to the line's length.
    pub fn insert(&mut self, character: char, loc: Location)
        ensures
            final(self).model() == inserted(old(self).model(), character, loc),
            final(self).path() == old(self).path(),
    {
        let row = loc.y as usize;
        if row > self.lines.len() {
        } else if row == self.lines.len() {
            let mut line = String::new();
            push_char(&mut line, character);
            self.lines.push(line);
            assert(self.model() =~= inserted(old(self).model(), character, loc));
        } else {
            let len = self.lines[row].as_str().unicode_len();
            let col: usize = if (loc.x as usize) < len { loc.x as usize } else { len };
            let mut line = String::from_str(self.lines[row].as_str().substring_char(0, col));
            push_char(&mut line, character);
            line.append(self.lines[row].as_str().substring_char(col, len));
            self.lines.set(row, line);
            assert(self.model() =~= inserted(old(self).model(), character, loc));
        }
    }
}

impl Default for Buffer {
    fn default() -> (r: Buffer)
        ensures
            r.model() == Seq::<Seq<char>>::empty(),
            r.path() is None,
    {
        Buffer::new()
    }
}

} // verus!
