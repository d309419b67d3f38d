//! What the file sinks write: their file names, CSV rows and JSONL records.
use vstd::prelude::*;

use crate::cli::SinkKind;
use crate::json::{json_escape_spec, push_json_escaped};
use crate::text::{chars_of, dec, owned, push_char, push_dec, push_str};

verus! {

// ---------------------------------------------------------------------------
// File names.
// ---------------------------------------------------------------------------
/// The extension of a sink's file.
pub open spec fn sink_extension_spec(kind: SinkKind) -> Seq<char> {
    match kind {
        SinkKind::Csv => "csv"@,
        SinkKind::Jsonl => "jsonl"@,
        SinkKind::Mqtt => "mqtt"@,
    }
}

/// The extension of a sink's file.
pub fn sink_extension(kind: SinkKind) -> (r: &'static str)
    ensures
        r@ == sink_extension_spec(kind),
{
    match kind {
        SinkKind::Csv => "csv",
        SinkKind::Jsonl => "jsonl",
        SinkKind::Mqtt => "mqtt",
    }
}

/// A text with every `.` replaced by `_`.
pub open spec fn dots_to_underscores(s: Seq<char>) -> Seq<char> {
    s.map_values(|c: char| if c == '.' { '_' } else { c })
}

/// The name of a sink's file: `wtg_sink_<timestamp>.<extension>`, where the
/// timestamp's dots become underscores.
pub open spec fn sink_filename_spec(kind: SinkKind, timestamp: Seq<char>) -> Seq<char> {
    "wtg_sink_"@ + dots_to_underscores(timestamp) + "."@ + sink_extension_spec(kind)
}

/// The name of a sink's file for a run started at `timestamp`.
pub fn sink_filename(kind: SinkKind, timestamp: &str) -> (r: String)
    ensures
        r@ == sink_filename_spec(kind, timestamp@),
{
    let cs = chars_of(timestamp);
    let mut r = owned("wtg_sink_");
    let ghost start = r@;
    let mut i: usize = 0;
    while i < cs.len()
        invariant
            cs@ == timestamp@,
            i <= cs.len(),
            r@ == start + dots_to_underscores(timestamp@.take(i as int)),
        decreases cs.len() - i,
    {
        let c = cs[i];
        push_char(&mut r, if c == '.' { '_' } else { c });
        assert(dots_to_underscores(timestamp@.take(i + 1)) =~= dots_to_underscores(
            timestamp@.take(i as int),
        ).push(if c == '.' { '_' } else { c }));
        i = i + 1;
    }
    assert(timestamp@.take(cs.len() as int) =~= timestamp@);
    push_str(&mut r, ".");
    push_str(&mut r, sink_extension(kind));
    assert(r@ =~= sink_filename_spec(kind, timestamp@));
    r
}

/// Three decimal digits, with leading zeros, of a number below 1000.
pub open spec fn three_digits(n: nat) -> Seq<char> {
    if n < 10 {
        "00"@ + dec(n)
    } else if n < 100 {
        "0"@ + dec(n)
    } else {
        dec(n)
    }
}

/// A run's timestamp: seconds since the Unix epoch, a dot, and the
/// milliseconds as three digits.
pub open spec fn timestamp_text_spec(secs: u64, millis: u32) -> Seq<char> {
    dec(secs as nat) + "."@ + three_digits(millis as nat)
}

/// A run's timestamp from the seconds and milliseconds since the Unix epoch.
pub fn timestamp_text(secs: u64, millis: u32) -> (r: String)
    requires
        millis < 1000,
    ensures
        r@ == timestamp_text_spec(secs, millis),
{
    let mut r = String::new();
    push_dec(&mut r, secs);
    push_str(&mut r, ".");
    if millis < 10 {
        push_str(&mut r, "00");
    } else if millis < 100 {
        push_str(&mut r, "0");
    }
    push_dec(&mut r, millis as u64);
    assert(r@ =~= timestamp_text_spec(secs, millis));
    r
}

// ---------------------------------------------------------------------------
// CSV.
// ---------------------------------------------------------------------------
/// Whether a field must be quoted: it holds a comma, a quote or a line break.
pub open spec fn csv_needs_quotes(s: Seq<char>) -> bool {
    exists|i: int| 0 <= i < s.len() && (s[i] == ',' || s[i] == '"' || s[i] == '\n' || s[i] == '\r')
}

/// A text with every double quote doubled.
pub open spec fn double_quotes(s: Seq<char>) -> Seq<char>
    decreases s.len(),
{
    if s.len() == 0 {
        Seq::empty()
    } else {
        double_quotes(s.drop_last()) + if s.last() == '"' {
            seq!['"', '"']
        } else {
            seq![s.last()]
        }
    }
}

/// A CSV field: as it is, or quoted with its quotes doubled when it must be.
pub open spec fn csv_escape_spec(s: Seq<char>) -> Seq<char> {
    if csv_needs_quotes(s) {
        seq!['"'] + double_quotes(s) + seq!['"']
    } else {
        s
    }
}

/// A field as written in a CSV row.
pub fn csv_escape_field(s: &str) -> (r: String)
    ensures
        r@ == csv_escape_spec(s@),
{
    let cs = chars_of(s);
    let mut needs = false;
    let mut i: usize = 0;
    while i < cs.len()
        invariant
            cs@ == s@,
            i <= cs.len(),
            needs == exists|k: int|
                0 <= k < i && (s@[k] == ',' || s@[k] == '"' || s@[k] == '\n' || s@[k] == '\r'),
        decreases cs.len() - i,
    {
        let c = cs[i];
        if c == ',' || c == '"' || c == '\n' || c == '\r' {
            needs = true;
        }
        i = i + 1;
    }
    if !needs {
        return owned(s);
    }
    let mut r = String::new();
    push_char(&mut r, '"');
    let ghost start = r@;
    let mut j: usize = 0;
    while j < cs.len()
        invariant
            cs@ == s@,
            j <= cs.len(),
            r@ == start + double_quotes(s@.take(j as int)),
        decreases cs.len() - j,
    {
        assert(s@.take(j + 1).drop_last() =~= s@.take(j as int));
        let c = cs[j];
        if c == '"' {
            push_char(&mut r, '"');
        }
        push_char(&mut r, c);
        j = j + 1;
    }
    assert(s@.take(cs.len() as int) =~= s@);
    push_char(&mut r, '"');
    assert(r@ =~= csv_escape_spec(s@));
    r
}

/// Fields joined by commas.
pub open spec fn join_commas(fields: Seq<Seq<char>>) -> Seq<char>
    decreases fields.len(),
{
    if fields.len() == 0 {
        Seq::empty()
    } else if fields.len() == 1 {
        fields[0]
    } else {
        join_commas(fields.drop_last()) + ","@ + fields.last()
    }
}

/// A CSV row: each field escaped, joined by commas.
pub open spec fn csv_row_spec(fields: Seq<Seq<char>>) -> Seq<char> {
    join_commas(fields.map_values(|f: Seq<char>| csv_escape_spec(f)))
}

/// The views of a sequence of strings.
pub open spec fn string_views(v: Seq<String>) -> Seq<Seq<char>> {
    v.map_values(|s: String| s@)
}

/// A CSV row of the given fields.
pub fn format_csv_row(fields: &Vec<String>) -> (r: String)
    ensures
        r@ == csv_row_spec(string_views(fields@)),
{
    let ghost all = string_views(fields@);
    let mut r = String::new();
    let mut i: usize = 0;
    while i < fields.len()
        invariant
            all == string_views(fields@),
            i <= fields.len(),
            r@ == csv_row_spec(all.take(i as int)),
        decreases fields.len() - i,
    {
        let ghost before = r@;
        let ghost esc = all.take(i + 1).map_values(|f: Seq<char>| csv_escape_spec(f));
        assert(esc.drop_last() =~= all.take(i as int).map_values(|f: Seq<char>| csv_escape_spec(f)));
        if i > 0 {
            push_str(&mut r, ",");
        }
        let e = csv_escape_field(fields[i].as_str());
        push_str(&mut r, e.as_str());
        proof {
            if i == 0 {
                assert(esc.len() == 1);
            }
        }
        assert(r@ =~= csv_row_spec(all.take(i + 1)));
        i = i + 1;
    }
    assert(all.take(fields.len() as int) =~= all);
    r
}

/// Removes the doubling of quotes: every pair of quotes becomes one.
pub open spec fn undouble_quotes(s: Seq<char>) -> Seq<char>
    decreases s.len(),
{
    if s.len() == 0 {
        Seq::empty()
    } else if s.len() >= 2 && s[0] == '"' && s[1] == '"' {
        seq!['"'] + undouble_quotes(s.subrange(2, s.len() as int))
    } else {
        seq![s[0]] + undouble_quotes(s.subrange(1, s.len() as int))
    }
}

proof fn lemma_double_quotes_front(c: char, s: Seq<char>)
    ensures
        double_quotes(seq![c] + s) == (if c == '"' {
            seq!['"', '"']
        } else {
            seq![c]
        }) + double_quotes(s),
    decreases s.len(),
{
    if s.len() == 0 {
        assert(double_quotes(seq![c] + s) == double_quotes(seq![c]));
        assert(seq![c].drop_last() =~= Seq::<char>::empty());
        assert(double_quotes(Seq::<char>::empty()) =~= Seq::<char>::empty());
    } else {
        let t = seq![c] + s;
        assert(t.drop_last() =~= seq![c] + s.drop_last());
        lemma_double_quotes_front(c, s.drop_last());
    }
}

/// Quoting is reversible: undoing the doubled quotes of a field gives the
/// field back.
pub proof fn lemma_csv_quoting_is_reversible(s: Seq<char>)
    ensures
        undouble_quotes(double_quotes(s)) == s,
    decreases s.len(),
{
    if s.len() > 0 {
        let rest = s.drop_first();
        assert(s =~= seq![s[0]] + rest);
        lemma_double_quotes_front(s[0], rest);
        lemma_csv_quoting_is_reversible(rest);
        let d = double_quotes(s);
        if s[0] == '"' {
            assert(d.subrange(2, d.len() as int) =~= double_quotes(rest));
        } else {
            assert(d.subrange(1, d.len() as int) =~= double_quotes(rest));
        }
        assert(undouble_quotes(d) =~= s);
    }
}

// ---------------------------------------------------------------------------
// JSONL.
// ---------------------------------------------------------------------------
/// The pieces of a text between line feeds (`str::split('\n')`).
pub open spec fn split_lines(s: Seq<char>) -> Seq<Seq<char>>
    decreases s.len(),
{
    if s.len() == 0 {
        seq![Seq::empty()]
    } else {
        let p = split_lines(s.drop_last());
        if s.last() == '\n' {
            p.push(Seq::empty())
        } else {
            p.update(p.len() - 1, p.last().push(s.last()))
        }
    }
}

proof fn lemma_split_lines_nonempty(s: Seq<char>)
    ensures
        split_lines(s).len() >= 1,
    decreases s.len(),
{
    if s.len() > 0 {
        lemma_split_lines_nonempty(s.drop_last());
    }
}

/// The lines of a text: its pieces between line feeds, without a last empty
/// one.
pub open spec fn text_lines(s: Seq<char>) -> Seq<Seq<char>> {
    let p = split_lines(s);
    if p.last().len() == 0 {
        p.drop_last()
    } else {
        p
    }
}

/// The JSONL record of one line: `{"line":"<escaped line>"}`, the line
/// without its trailing carriage returns.
pub open spec fn jsonl_record_spec(line: Seq<char>) -> Seq<char> {
    "{\"line\":\""@ + json_escape_spec(crate::text::trim_char_end(line, '\r')) + "\"}"@
}

/// The JSONL records of a text, one per line.
pub open spec fn jsonl_records_spec(text: Seq<char>) -> Seq<Seq<char>> {
    text_lines(text).map_values(|l: Seq<char>| jsonl_record_spec(l))
}

fn trim_end_cr(line: &Vec<char>) -> (n: usize)
    ensures
        n <= line@.len(),
        line@.take(n as int) == crate::text::trim_char_end(line@, '\r'),
{
    let mut n = line.len();
    assert(line@.take(n as int) =~= line@);
    while n > 0 && line[n - 1] == '\r'
        invariant
            n <= line@.len(),
            crate::text::trim_char_end(line@, '\r') == crate::text::trim_char_end(line@.take(n as int), '\r'),
        decreases n,
    {
        assert(line@.take(n as int).drop_last() =~= line@.take(n - 1));
        n = n - 1;
    }
    n
}

/// The JSONL record of one line.
pub fn jsonl_record(line: &Vec<char>) -> (r: String)
    ensures
        r@ == jsonl_record_spec(line@),
{
    let n = trim_end_cr(line);
    let mut body = String::new();
    let mut i: usize = 0;
    let ghost t = line@.take(n as int);
    while i < n
        invariant
            n <= line@.len(),
            t == line@.take(n as int),
            i <= n,
            body@ == t.take(i as int),
        decreases n - i,
    {
        push_char(&mut body, line[i]);
        assert(t.take(i + 1) =~= t.take(i as int).push(line@[i as int]));
        i = i + 1;
    }
    assert(t.take(n as int) =~= t);
    let mut r = owned("{\"line\":\"");
    push_json_escaped(&mut r, body.as_str());
    push_str(&mut r, "\"}");
    r
}

/// The JSONL records that mirror a text, one per line.
pub fn jsonl_records(text: &str) -> (r: Vec<String>)
    ensures
        string_views(r@) == jsonl_records_spec(text@),
{
    let cs = chars_of(text);
    let mut pieces: Vec<Vec<char>> = Vec::new();
    let mut cur: Vec<char> = Vec::new();
    let mut i: usize = 0;
    while i < cs.len()
        invariant
            cs@ == text@,
            i <= cs.len(),
            split_lines(text@.take(i as int)) == pieces@.map_values(|p: Vec<char>| p@).push(cur@),
        decreases cs.len() - i,
    {
        assert(text@.take(i + 1).drop_last() =~= text@.take(i as int));
        let c = cs[i];
        if c == '\n' {
            let done = cur;
            pieces.push(done);
            cur = Vec::new();
        } else {
            cur.push(c);
        }
        assert(split_lines(text@.take(i + 1)) =~= pieces@.map_values(|p: Vec<char>| p@).push(cur@));
        i = i + 1;
    }
    assert(text@.take(cs.len() as int) =~= text@);
    if cur.len() > 0 {
        pieces.push(cur);
    }
    let ghost lines = pieces@.map_values(|p: Vec<char>| p@);
    assert(lines =~= text_lines(text@));
    let mut r: Vec<String> = Vec::new();
    let mut k: usize = 0;
    while k < pieces.len()
        invariant
            k <= pieces@.len(),
            lines == pieces@.map_values(|p: Vec<char>| p@),
            string_views(r@) == lines.take(k as int).map_values(|l: Seq<char>| jsonl_record_spec(l)),
        decreases pieces.len() - k,
    {
        let rec = jsonl_record(&pieces[k]);
        assert(lines[k as int] == pieces@[k as int]@);
        let ghost before = r@;
        r.push(rec);
        assert(string_views(r@) =~= string_views(before).push(rec@));
        assert(lines.take(k + 1).map_values(|l: Seq<char>| jsonl_record_spec(l)) =~= lines.take(
            k as int,
        ).map_values(|l: Seq<char>| jsonl_record_spec(l)).push(jsonl_record_spec(lines[k as int])));
        assert(string_views(r@) =~= lines.take(k + 1).map_values(|l: Seq<char>| jsonl_record_spec(l)));
        k = k + 1;
    }
    assert(lines.take(pieces@.len() as int) =~= lines);
    r
}

} // verus!
