//! Output formatting of the command-line tool: field selection and the
//! tabular, multiline and terse line layouts.

use vstd::prelude::*;
use crate::text::{all_ascii, ascii_upper, eq_str, split_char, split_seq, trim, trim_seq};

verus! {

/// Output mode: tabular, multiline, or terse
#[derive(Debug, Clone, Copy, PartialEq, Eq, Structural)]
pub enum OutputMode {
    Tabular,
    Multiline,
    Terse,
}

/// Use colors in output
#[derive(Debug, Clone, Copy, PartialEq, Eq, Structural)]
pub enum ColorMode {
    Yes,
    No,
    Auto,
}

/// What `str::to_uppercase` gives for a string (Unicode case mapping).
pub uninterp spec fn uppercase(s: Seq<char>) -> Seq<char>;

/// `str::to_uppercase`: the uppercase equivalent of the string, by the
/// Unicode case mapping.  The contract names that result and states only
/// what holds of ASCII text: each letter `a`..`z` becomes `A`..`Z`, every
/// other character stays.
#[verifier::external_body]
fn to_uppercase(s: &str) -> (r: String)
    ensures
        r@ == uppercase(s@),
        all_ascii(s@) ==> r@ == s@.map_values(|c: char| ascii_upper(c)),
{
    s.to_uppercase()
}

/// `parts` joined with `sep` between consecutive parts.
pub open spec fn join_seq(parts: Seq<Seq<char>>, sep: Seq<char>) -> Seq<char>
    decreases parts.len(),
{
    if parts.len() == 0 {
        Seq::empty()
    } else if parts.len() == 1 {
        parts[0]
    } else {
        join_seq(parts.drop_last(), sep) + sep + parts.last()
    }
}

/// Joins `parts` with `sep` between consecutive parts.
pub fn join_strings(parts: &Vec<String>, sep: &str) -> (r: String)
    ensures
        r@ == join_seq(parts@.map_values(|p: String| p@), sep@),
{
    let ghost pv = parts@.map_values(|p: String| p@);
    let mut r = String::new();
    let mut i: usize = 0;
    while i < parts.len()
        invariant
            i <= parts@.len(),
            pv == parts@.map_values(|p: String| p@),
            r@ == join_seq(pv.take(i as int), sep@),
        decreases parts@.len() - i,
    {
        assert(pv.take(i + 1).drop_last() =~= pv.take(i as int));
        if i > 0 {
            r.append(sep);
        }
        r.append(parts[i].as_str());
        proof {
            if i == 0 {
                assert(r@ =~= pv.take(1)[0]);
            }
        }
        i += 1;
    }
    assert(pv.take(parts@.len() as int) =~= pv);
    r
}

/// The selected field names, upper-cased, of a `--fields` argument: the
/// comma-separated parts, each trimmed.
pub open spec fn selected_fields(f: Seq<char>) -> Seq<Seq<char>> {
    split_seq(f, ',').map_values(|p: Seq<char>| uppercase(trim_seq(p)))
}

/// Whether a field is shown: all are without a selection, otherwise those
/// whose upper-cased name was selected.
pub open spec fn field_shown(fields: Option<Seq<Seq<char>>>, field: Seq<char>) -> bool {
    match fields {
        None => true,
        Some(l) => l.contains(uppercase(field)),
    }
}

/// The parts of a line: the shown values (as `key:value` when `keyed`).
pub open spec fn line_parts(
    fields: Option<Seq<Seq<char>>>,
    values: Seq<(Seq<char>, Seq<char>)>,
    keyed: bool,
) -> Seq<Seq<char>>
    decreases values.len(),
{
    if values.len() == 0 {
        Seq::empty()
    } else {
        let rest = line_parts(fields, values.drop_last(), keyed);
        let (k, v) = values.last();
        if field_shown(fields, k) {
            rest.push(if keyed { k + ":"@ + v } else { v })
        } else {
            rest
        }
    }
}

/// The shown header names.
pub open spec fn shown_headers(fields: Option<Seq<Seq<char>>>, headers: Seq<Seq<char>>) -> Seq<Seq<char>>
    decreases headers.len(),
{
    if headers.len() == 0 {
        Seq::empty()
    } else {
        let rest = shown_headers(fields, headers.drop_last());
        if field_shown(fields, headers.last()) {
            rest.push(headers.last())
        } else {
            rest
        }
    }
}

/// A line of output: shown values joined with `:` in terse output (and in
/// tabular output with `--terse`), with two spaces in tabular output, and
/// one `key:value` per line in multiline output.
pub open spec fn formatted_line(
    fields: Option<Seq<Seq<char>>>,
    mode: OutputMode,
    terse: bool,
    values: Seq<(Seq<char>, Seq<char>)>,
) -> Seq<char> {
    match mode {
        OutputMode::Terse => join_seq(line_parts(fields, values, false), ":"@),
        OutputMode::Multiline => join_seq(line_parts(fields, values, true), "\n"@),
        OutputMode::Tabular => if terse {
            join_seq(line_parts(fields, values, false), ":"@)
        } else {
            join_seq(line_parts(fields, values, false), "  "@)
        },
    }
}

pub open spec fn pairs_view(values: Seq<(String, String)>) -> Seq<(Seq<char>, Seq<char>)> {
    values.map_values(|p: (String, String)| (p.0@, p.1@))
}

pub open spec fn strings_view(v: Seq<String>) -> Seq<Seq<char>> {
    v.map_values(|p: String| p@)
}

/// Field formatter for tabular output
pub struct FieldFormatter {
    fields: Option<Vec<String>>,
    mode: OutputMode,
    terse: bool,
}

impl FieldFormatter {
    /// The selected (upper-cased) field names, if fields were selected.
    pub closed spec fn fields(&self) -> Option<Seq<Seq<char>>> {
        match self.fields {
            Some(v) => Some(strings_view(v@)),
            None => None,
        }
    }

    pub closed spec fn mode(&self) -> OutputMode {
        self.mode
    }

    pub closed spec fn terse(&self) -> bool {
        self.terse
    }

    /// A formatter for the `--fields`, `--mode` and `--terse` options.
    pub fn new(fields: Option<&str>, mode: OutputMode, terse: bool) -> (f: Self)
        ensures
            f.fields() == match fields {
                Some(s) => Some(selected_fields(s@)),
                None => None,
            },
            f.mode() == mode,
            f.terse() == terse,
    {
        let selected = match fields {
            Some(s) => {
                let parts = split_char(s, ',');
                let ghost pv = split_seq(s@, ',');
                let mut out: Vec<String> = Vec::new();
                let mut i: usize = 0;
                while i < parts.len()
                    invariant
                        i <= parts@.len(),
                        parts.deep_view() == pv,
                        out@.len() == i,
                        forall|j: int|
                            0 <= j < i ==> #[trigger] out@[j]@ == uppercase(trim_seq(pv[j])),
                    decreases parts@.len() - i,
                {
                    assert(parts@[i as int]@ == pv[i as int]);
                    let t = trim(parts[i].as_str());
                    out.push(to_uppercase(t.as_str()));
                    i += 1;
                }
                assert(strings_view(out@) =~= selected_fields(s@));
                Some(out)
            },
            None => None,
        };
        FieldFormatter { fields: selected, mode, terse }
    }

    /// Check if a field should be displayed
    pub fn should_show_field(&self, field: &str) -> (r: bool)
        ensures
            r == field_shown(self.fields(), field@),
    {
        match &self.fields {
            None => true,
            Some(list) => {
                let up = to_uppercase(field);
                let ghost lv = strings_view(list@);
                let mut i: usize = 0;
                while i < list.len()
                    invariant
                        i <= list@.len(),
                        lv == strings_view(list@),
                        self.fields() == Some(lv),
                        up@ == uppercase(field@),
                        forall|j: int| 0 <= j < i ==> lv[j] != up@,
                    decreases list@.len() - i,
                {
                    if eq_str(list[i].as_str(), up.as_str()) {
                        assert(lv[i as int] == up@);
                        assert(lv.contains(up@));
                        return true;
                    }
                    i += 1;
                }
                false
            },
        }
    }

    fn shown_parts(&self, values: &Vec<(String, String)>, keyed: bool) -> (r: Vec<String>)
        ensures
            strings_view(r@) == line_parts(self.fields(), pairs_view(values@), keyed),
    {
        let ghost vv = pairs_view(values@);
        let mut out: Vec<String> = Vec::new();
        let mut i: usize = 0;
        while i < values.len()
            invariant
                i <= values@.len(),
                vv == pairs_view(values@),
                strings_view(out@) == line_parts(self.fields(), vv.take(i as int), keyed),
            decreases values@.len() - i,
        {
            assert(vv.take(i + 1).drop_last() =~= vv.take(i as int));
            assert(vv.take(i + 1).last() == (values@[i as int].0@, values@[i as int].1@));
            if self.should_show_field(values[i].0.as_str()) {
                if keyed {
                    let mut p = values[i].0.clone();
                    p.append(":");
                    p.append(values[i].1.as_str());
                    out.push(p);
                } else {
                    out.push(values[i].1.clone());
                }
                assert(strings_view(out@) =~= line_parts(self.fields(), vv.take(i + 1), keyed));
            }
            i += 1;
        }
        assert(vv.take(values@.len() as int) =~= vv);
        out
    }

    /// Format output based on mode
    pub fn format_line(&self, values: &Vec<(String, String)>) -> (r: String)
        ensures
            r@ == formatted_line(self.fields(), self.mode(), self.terse(), pairs_view(values@)),
    {
        match self.mode {
            OutputMode::Terse => {
                let parts = self.shown_parts(values, false);
                join_strings(&parts, ":")
            },
            OutputMode::Multiline => {
                let parts = self.shown_parts(values, true);
                join_strings(&parts, "\n")
            },
            OutputMode::Tabular => {
                let parts = self.shown_parts(values, false);
                if self.terse {
                    join_strings(&parts, ":")
                } else {
                    join_strings(&parts, "  ")
                }
            },
        }
    }

    /// The header line of tabular output (none in terse or other modes):
    /// the shown headers joined with two spaces.
    pub fn header_line(&self, headers: &Vec<String>) -> (r: Option<String>)
        ensures
            match r {
                Some(h) => !self.terse() && self.mode() == OutputMode::Tabular && h@ == join_seq(
                    shown_headers(self.fields(), strings_view(headers@)),
                    "  "@,
                ),
                None => self.terse() || self.mode() != OutputMode::Tabular,
            },
    {
        if self.terse || self.mode != OutputMode::Tabular {
            return None;
        }
        let ghost hv = strings_view(headers@);
        let mut out: Vec<String> = Vec::new();
        let mut i: usize = 0;
        while i < headers.len()
            invariant
                i <= headers@.len(),
                hv == strings_view(headers@),
                strings_view(out@) == shown_headers(self.fields(), hv.take(i as int)),
            decreases headers@.len() - i,
        {
            assert(hv.take(i + 1).drop_last() =~= hv.take(i as int));
            if self.should_show_field(headers[i].as_str()) {
                out.push(headers[i].clone());
                assert(strings_view(out@) =~= shown_headers(self.fields(), hv.take(i + 1)));
            }
            i += 1;
        }
        assert(hv.take(headers@.len() as int) =~= hv);
        Some(join_strings(&out, "  "))
    }
}

} // verus!
