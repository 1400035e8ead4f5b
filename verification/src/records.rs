//! The text format in which the Unity tool answers: one record per line,
//! fields separated by tabs, white space around each field ignored, blank
//! lines skipped; and what the application reads from such records.

use vstd::prelude::*;
use vstd::string::{StrSliceExecFns, StringExecFns};

use crate::model::{Project, ProjectView, Template};
use crate::text::{chars_of, equal_text, string_of, texts, trim_str, trimmed};

verus! {

/// The pieces of `s` between occurrences of `c`, in order; a text without `c`
/// is one piece, and a text ending with `c` ends with an empty piece.
pub open spec fn split_on(s: Seq<char>, c: char) -> Seq<Seq<char>>
    decreases s.len(),
{
    if s.len() == 0 {
        seq![seq![]]
    } else {
        let p = split_on(s.drop_last(), c);
        if s.last() == c {
            p.push(seq![])
        } else {
            p.update(p.len() - 1, p.last().push(s.last()))
        }
    }
}

proof fn lemma_split_on_nonempty(s: Seq<char>, c: char)
    ensures
        split_on(s, c).len() >= 1,
    decreases s.len(),
{
    if s.len() > 0 {
        lemma_split_on_nonempty(s.drop_last(), c);
    }
}

/// Splits the characters `cs` at each `c`.
pub fn split_chars(cs: &Vec<char>, c: char) -> (r: Vec<String>)
    ensures
        texts(r@) == split_on(cs@, c),
{
    let mut pieces: Vec<String> = Vec::new();
    let mut cur: Vec<char> = Vec::new();
    let n = cs.len();
    assert(cs@.take(0) =~= Seq::<char>::empty());
    assert(texts(pieces@).push(cur@) =~= split_on(cs@.take(0), c));
    for i in 0..n
        invariant
            n == cs@.len(),
            texts(pieces@).push(cur@) == split_on(cs@.take(i as int), c),
    {
        let x = cs[i];
        let ghost before = texts(pieces@);
        let ghost t = cs@.take(i + 1);
        assert(t.drop_last() =~= cs@.take(i as int));
        assert(t.last() == x);
        proof {
            lemma_split_on_nonempty(cs@.take(i as int), c);
        }
        if x == c {
            let piece = string_of(cur.as_slice());
            pieces.push(piece);
            cur = Vec::new();
            assert(texts(pieces@) =~= before.push(piece@));
            assert(texts(pieces@).push(cur@) =~= split_on(t, c));
        } else {
            cur.push(x);
            assert(texts(pieces@).push(cur@) =~= split_on(t, c));
        }
    }
    let ghost before = texts(pieces@);
    let last = string_of(cur.as_slice());
    pieces.push(last);
    assert(cs@.take(n as int) =~= cs@);
    assert(texts(pieces@) =~= before.push(last@));
    pieces
}

/// A line holding nothing but white space.
pub open spec fn blank(line: Seq<char>) -> bool {
    trimmed(line).len() == 0
}

/// The fields of a line: its pieces between tabs, each without surrounding
/// white space.
pub open spec fn fields(line: Seq<char>) -> Seq<Seq<char>> {
    split_on(line, '\t').map_values(|f: Seq<char>| trimmed(f))
}

/// The records of the lines that are not blank, in order.
pub open spec fn records_of(lines: Seq<Seq<char>>) -> Seq<Seq<Seq<char>>>
    decreases lines.len(),
{
    if lines.len() == 0 {
        seq![]
    } else {
        let r = records_of(lines.drop_last());
        if blank(lines.last()) { r } else { r.push(fields(lines.last())) }
    }
}

/// The records of a text: one per line that is not blank.
pub open spec fn records(text: Seq<char>) -> Seq<Seq<Seq<char>>> {
    records_of(split_on(text, '\n'))
}

/// Records seen as texts.
pub open spec fn record_texts(v: Seq<Vec<String>>) -> Seq<Seq<Seq<char>>> {
    v.map_values(|r: Vec<String>| texts(r@))
}

/// The fields of one line.
fn line_fields(line: &str) -> (r: Vec<String>)
    ensures
        texts(r@) == fields(line@),
{
    let pieces = split_chars(&chars_of(line), '\t');
    let ghost ps = texts(pieces@);
    let mut r: Vec<String> = Vec::new();
    let n = pieces.len();
    for i in 0..n
        invariant
            n == pieces@.len(),
            ps == texts(pieces@),
            ps == split_on(line@, '\t'),
            texts(r@) == ps.take(i as int).map_values(|f: Seq<char>| trimmed(f)),
    {
        let ghost before = texts(r@);
        let f = String::from_str(trim_str(pieces[i].as_str()));
        r.push(f);
        assert(texts(r@) =~= before.push(f@));
        assert(ps.take(i + 1).map_values(|f: Seq<char>| trimmed(f))
            =~= ps.take(i as int).map_values(|f: Seq<char>| trimmed(f)).push(trimmed(ps[i as int])));
    }
    assert(ps.take(n as int) =~= ps);
    r
}

/// Reads the records of a text.
pub fn parse_records(text: &str) -> (r: Vec<Vec<String>>)
    ensures
        record_texts(r@) == records(text@),
{
    let lines = split_chars(&chars_of(text), '\n');
    let ghost ls = texts(lines@);
    let mut r: Vec<Vec<String>> = Vec::new();
    let n = lines.len();
    for i in 0..n
        invariant
            n == lines@.len(),
            ls == texts(lines@),
            ls == split_on(text@, '\n'),
            record_texts(r@) == records_of(ls.take(i as int)),
    {
        let ghost before = record_texts(r@);
        assert(ls.take(i + 1).drop_last() =~= ls.take(i as int));
        assert(ls.take(i + 1).last() == lines@[i as int]@);
        let line = lines[i].as_str();
        let t = trim_str(line);
        if t.unicode_len() != 0 {
            let fs = line_fields(line);
            r.push(fs);
            assert(record_texts(r@) =~= before.push(texts(fs@)));
        }
    }
    assert(ls.take(n as int) =~= ls);
    r
}

/// Field `i` of a record, or the empty text where the record has fewer fields.
pub open spec fn field(r: Seq<Seq<char>>, i: int) -> Seq<char> {
    if 0 <= i < r.len() { r[i] } else { seq![] }
}

/// A project listed as its name, its path and its editor version.
pub open spec fn project_of(r: Seq<Seq<char>>) -> ProjectView {
    ProjectView { name: field(r, 0), path: field(r, 1), editor_version: field(r, 2), template: seq![] }
}

/// An editor version listed as the version, then `installed` when it is.
pub open spec fn editor_of(r: Seq<Seq<char>>) -> (bool, Seq<char>) {
    (field(r, 1) == "installed"@, field(r, 0))
}

/// The login status: logged in, as the user named by the first field of the
/// first record, when there is such a name.
pub open spec fn login_of(rs: Seq<Seq<Seq<char>>>) -> (bool, Seq<char>) {
    if rs.len() > 0 && field(rs[0], 0).len() > 0 {
        (true, field(rs[0], 0))
    } else {
        (false, seq![])
    }
}

/// Field `i` of a record, or the empty string.
fn field_text(r: &Vec<String>, i: usize) -> (t: String)
    ensures
        t@ == field(texts(r@), i as int),
{
    if i < r.len() {
        let t = r[i].clone();
        assert(t@ == texts(r@)[i as int]);
        t
    } else {
        String::new()
    }
}

/// The projects listed by the records.
pub fn projects_from(rs: &Vec<Vec<String>>) -> (ps: Vec<Project>)
    ensures
        ps@.len() == rs@.len(),
        forall|k: int| 0 <= k < ps@.len() ==> (#[trigger] ps@[k])@ == project_of(record_texts(rs@)[k]),
{
    let mut ps: Vec<Project> = Vec::new();
    let n = rs.len();
    for i in 0..n
        invariant
            n == rs@.len(),
            ps@.len() == i,
            forall|k: int| 0 <= k < i ==> (#[trigger] ps@[k])@ == project_of(record_texts(rs@)[k]),
    {
        let r = &rs[i];
        assert(texts(r@) == record_texts(rs@)[i as int]);
        let p = Project {
            name: field_text(r, 0),
            path: field_text(r, 1),
            editor_version: field_text(r, 2),
            template: String::new(),
        };
        ps.push(p);
    }
    ps
}

/// The editor versions listed by the records, each with whether it is installed.
pub fn editors_from(rs: &Vec<Vec<String>>) -> (es: Vec<(bool, String)>)
    ensures
        es@.len() == rs@.len(),
        forall|k: int| 0 <= k < es@.len() ==>
            ((#[trigger] es@[k]).0, es@[k].1@) == editor_of(record_texts(rs@)[k]),
{
    proof {
        reveal_strlit("installed");
    }
    let mut es: Vec<(bool, String)> = Vec::new();
    let n = rs.len();
    for i in 0..n
        invariant
            n == rs@.len(),
            es@.len() == i,
            forall|k: int| 0 <= k < i ==>
                ((#[trigger] es@[k]).0, es@[k].1@) == editor_of(record_texts(rs@)[k]),
    {
        let r = &rs[i];
        assert(texts(r@) == record_texts(rs@)[i as int]);
        let state = field_text(r, 1);
        let installed = equal_text(state.as_str(), "installed");
        es.push((installed, field_text(r, 0)));
    }
    es
}

/// The first field of each record: the names listed.
pub fn names_from(rs: &Vec<Vec<String>>) -> (ns: Vec<String>)
    ensures
        ns@.len() == rs@.len(),
        forall|k: int| 0 <= k < ns@.len() ==> (#[trigger] ns@[k])@ == field(record_texts(rs@)[k], 0),
{
    let mut ns: Vec<String> = Vec::new();
    let n = rs.len();
    for i in 0..n
        invariant
            n == rs@.len(),
            ns@.len() == i,
            forall|k: int| 0 <= k < i ==> (#[trigger] ns@[k])@ == field(record_texts(rs@)[k], 0),
    {
        let r = &rs[i];
        assert(texts(r@) == record_texts(rs@)[i as int]);
        ns.push(field_text(r, 0));
    }
    ns
}

/// The templates named by the records.
pub fn templates_from(rs: &Vec<Vec<String>>) -> (ts: Vec<Template>)
    ensures
        ts@.len() == rs@.len(),
        forall|k: int| 0 <= k < ts@.len() ==> (#[trigger] ts@[k]).name@ == field(record_texts(rs@)[k], 0),
{
    let mut ts: Vec<Template> = Vec::new();
    let n = rs.len();
    for i in 0..n
        invariant
            n == rs@.len(),
            ts@.len() == i,
            forall|k: int| 0 <= k < i ==> (#[trigger] ts@[k]).name@ == field(record_texts(rs@)[k], 0),
    {
        let r = &rs[i];
        assert(texts(r@) == record_texts(rs@)[i as int]);
        ts.push(Template { name: field_text(r, 0) });
    }
    ts
}

/// The login status the records give.
pub fn login_from(rs: &Vec<Vec<String>>) -> (r: (bool, String))
    ensures
        (r.0, r.1@) == login_of(record_texts(rs@)),
{
    if rs.len() > 0 {
        assert(texts(rs@[0]@) == record_texts(rs@)[0]);
        let user = field_text(&rs[0], 0);
        if user.unicode_len() > 0 {
            return (true, user);
        }
    }
    (false, String::new())
}

} // verus!
