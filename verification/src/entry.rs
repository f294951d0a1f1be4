//! Mood-log entries and the CSV reader that decodes them.
//!
//! The accepted input is newline-separated records of comma-separated
//! fields, the first record naming the columns. Reading is tolerant:
//! column order is free, fields are trimmed of surrounding whitespace,
//! rows may be longer or shorter than the header, blank lines and unknown
//! columns are ignored. A data row that does not supply every schema
//! column fails the whole parse.
//!
//! The parse is specified exactly by [`spec_parse_csv`] over the text's
//! characters.

use vstd::prelude::*;

use crate::text::{fields_of, lookup, spec_split, split_char, split_fields, strip_cr};

verus! {

/// One logged journal record. `full_date` is the only field the gap
/// detector reads; the rest is carried through untouched.
#[derive(Debug, Clone, PartialEq, Eq)]
pub struct MoodEntry {
    pub full_date: String,
    pub date: String,
    pub weekday: String,
    pub time: String,
    pub mood: String,
    pub activities: String,
    pub note_title: String,
    pub note: String,
}

/// The mathematical model of a [`MoodEntry`]: its fields as character
/// sequences.
pub struct MoodEntryModel {
    pub full_date: Seq<char>,
    pub date: Seq<char>,
    pub weekday: Seq<char>,
    pub time: Seq<char>,
    pub mood: Seq<char>,
    pub activities: Seq<char>,
    pub note_title: Seq<char>,
    pub note: Seq<char>,
}

impl View for MoodEntry {
    type V = MoodEntryModel;

    open spec fn view(&self) -> MoodEntryModel {
        MoodEntryModel {
            full_date: self.full_date@,
            date: self.date@,
            weekday: self.weekday@,
            time: self.time@,
            mood: self.mood@,
            activities: self.activities@,
            note_title: self.note_title@,
            note: self.note@,
        }
    }
}

impl DeepView for MoodEntry {
    type V = MoodEntryModel;

    open spec fn deep_view(&self) -> MoodEntryModel {
        self.view()
    }
}

/// A CSV input that could not be decoded into entries: some data row does
/// not supply every schema column.
#[derive(Debug, Clone, Copy, PartialEq, Eq, Structural)]
pub struct ParseError;

/// The records of a CSV text: newline-separated, a trailing carriage
/// return removed from each, blank lines dropped.
pub open spec fn csv_records(text: Seq<char>) -> Seq<Seq<char>> {
    spec_split(text, '\n').map_values(|l: Seq<char>| strip_cr(l)).filter(
        |l: Seq<char>| l.len() > 0,
    )
}

/// The value of the column called `name`: the field at the position where
/// the header names it, or `None` when the header does not name it or the
/// row is too short to reach it.
pub open spec fn field_at(
    header: Seq<Seq<char>>,
    fields: Seq<Seq<char>>,
    name: Seq<char>,
) -> Option<Seq<char>> {
    let j = lookup(header, name);
    if j < header.len() && j < fields.len() {
        Some(fields[j])
    } else {
        None
    }
}

/// Decode one data row against the header: every schema column must be
/// present; unknown and surplus columns are ignored.
pub open spec fn spec_decode_row(
    header: Seq<Seq<char>>,
    fields: Seq<Seq<char>>,
) -> Option<MoodEntryModel> {
    if {
        &&& field_at(header, fields, "full_date"@) is Some
        &&& field_at(header, fields, "date"@) is Some
        &&& field_at(header, fields, "weekday"@) is Some
        &&& field_at(header, fields, "time"@) is Some
        &&& field_at(header, fields, "mood"@) is Some
        &&& field_at(header, fields, "activities"@) is Some
        &&& field_at(header, fields, "note_title"@) is Some
        &&& field_at(header, fields, "note"@) is Some
    } {
        Some(
            MoodEntryModel {
                full_date: field_at(header, fields, "full_date"@)->0,
                date: field_at(header, fields, "date"@)->0,
                weekday: field_at(header, fields, "weekday"@)->0,
                time: field_at(header, fields, "time"@)->0,
                mood: field_at(header, fields, "mood"@)->0,
                activities: field_at(header, fields, "activities"@)->0,
                note_title: field_at(header, fields, "note_title"@)->0,
                note: field_at(header, fields, "note"@)->0,
            },
        )
    } else {
        None
    }
}

/// Decode all data rows, in order; any row failure fails the whole parse.
pub open spec fn spec_parse_rows(header: Seq<Seq<char>>, rows: Seq<Seq<char>>) -> Option<
    Seq<MoodEntryModel>,
>
    decreases rows.len(),
{
    if rows.len() == 0 {
        Some(Seq::<MoodEntryModel>::empty())
    } else {
        let e = spec_decode_row(header, fields_of(rows[0]));
        let rest = spec_parse_rows(header, rows.drop_first());
        if e is Some && rest is Some {
            Some(seq![e->0] + rest->0)
        } else {
            None
        }
    }
}

/// The meaning of a CSV text: its entries in row order, or `None` when
/// some data row cannot be decoded. A text with no records, or only a
/// header record, means the empty sequence.
pub open spec fn spec_parse_csv(text: Seq<char>) -> Option<Seq<MoodEntryModel>> {
    let recs = csv_records(text);
    if recs.len() == 0 {
        Some(Seq::<MoodEntryModel>::empty())
    } else {
        spec_parse_rows(fields_of(recs[0]), recs.drop_first())
    }
}

/// A text whose records are a header alone (or nothing at all) parses to
/// the empty entry sequence, whatever the header says.
pub proof fn lemma_header_only_parses_empty(text: Seq<char>)
    requires
        csv_records(text).len() <= 1,
    ensures
        spec_parse_csv(text) == Some(Seq::<MoodEntryModel>::empty()),
{
    let recs = csv_records(text);
    if recs.len() == 1 {
        assert(recs.drop_first().len() == 0);
    }
}

/// A data row that supplies every schema column decodes, and each entry
/// field is exactly the field in the column the header names.
pub proof fn lemma_complete_row_decodes(header: Seq<Seq<char>>, fields: Seq<Seq<char>>)
    requires
        field_at(header, fields, "full_date"@) is Some,
        field_at(header, fields, "date"@) is Some,
        field_at(header, fields, "weekday"@) is Some,
        field_at(header, fields, "time"@) is Some,
        field_at(header, fields, "mood"@) is Some,
        field_at(header, fields, "activities"@) is Some,
        field_at(header, fields, "note_title"@) is Some,
        field_at(header, fields, "note"@) is Some,
    ensures
        spec_decode_row(header, fields) matches Some(e) && e == (MoodEntryModel {
            full_date: field_at(header, fields, "full_date"@)->0,
            date: field_at(header, fields, "date"@)->0,
            weekday: field_at(header, fields, "weekday"@)->0,
            time: field_at(header, fields, "time"@)->0,
            mood: field_at(header, fields, "mood"@)->0,
            activities: field_at(header, fields, "activities"@)->0,
            note_title: field_at(header, fields, "note_title"@)->0,
            note: field_at(header, fields, "note"@)->0,
        }),
{
}

fn records_of(text: &str) -> (r: Vec<String>)
    ensures
        r.deep_view() == csv_records(text@),
{
    let lines = split_char(text, '\n');
    let mut recs: Vec<String> = Vec::new();
    let mut j: usize = 0;
    proof {
        assert(lines.deep_view().take(0) =~= Seq::<Seq<char>>::empty());
        assert(recs.deep_view() =~~= Seq::<Seq<char>>::empty().map_values(
            |l: Seq<char>| strip_cr(l),
        ).filter(|l: Seq<char>| l.len() > 0));
    }
    while j < lines.len()
        invariant
            lines.deep_view() == spec_split(text@, '\n'),
            0 <= j <= lines.len(),
            recs.deep_view() == lines.deep_view().take(j as int).map_values(
                |l: Seq<char>| strip_cr(l),
            ).filter(|l: Seq<char>| l.len() > 0),
        decreases lines.len() - j,
    {
        let line = &lines[j];
        let n = line.as_str().unicode_len();
        let stripped: String = if n > 0 && line.as_str().get_char(n - 1) == '\r' {
            line.as_str().substring_char(0, n - 1).to_owned()
        } else {
            line.clone()
        };
        proof {
            assert(line@.drop_last() =~= line@.subrange(0, line@.len() - 1));
            assert(stripped@ == strip_cr(lines.deep_view()[j as int]));
        }
        let ghost old_recs = recs.deep_view();
        let nonblank = stripped.as_str().unicode_len() > 0;
        if nonblank {
            recs.push(stripped);
            proof {
                assert(recs.deep_view() =~~= old_recs.push(strip_cr(lines.deep_view()[j as int])));
            }
        }
        proof {
            let f = |l: Seq<char>| strip_cr(l);
            let dv = lines.deep_view();
            assert(dv.take(j + 1).drop_last() =~= dv.take(j as int));
            assert(dv.take(j + 1).map_values(f) =~~= dv.take(j as int).map_values(f).push(
                f(dv[j as int]),
            ));
            lemma_filter_push(dv.take(j as int).map_values(f), f(dv[j as int]));
        }
        j = j + 1;
    }
    proof {
        assert(lines.deep_view().take(lines.deep_view().len() as int) =~= lines.deep_view());
    }
    recs
}

proof fn lemma_filter_push(s: Seq<Seq<char>>, x: Seq<char>)
    ensures
        (s.push(x)).filter(|l: Seq<char>| l.len() > 0) == (if x.len() > 0 {
            s.filter(|l: Seq<char>| l.len() > 0).push(x)
        } else {
            s.filter(|l: Seq<char>| l.len() > 0)
        }),
{
    assert(s.push(x).drop_last() =~= s);
    reveal(Seq::filter);
}

fn decode_row(header: &Vec<String>, fields: &Vec<String>) -> (r: Option<MoodEntry>)
    ensures
        r is Some <==> spec_decode_row(header.deep_view(), fields.deep_view()) is Some,
        r is Some ==> r->0@ == spec_decode_row(header.deep_view(), fields.deep_view())->0,
{
    let full_date = lookup_field(header, fields, "full_date");
    let date = lookup_field(header, fields, "date");
    let weekday = lookup_field(header, fields, "weekday");
    let time = lookup_field(header, fields, "time");
    let mood = lookup_field(header, fields, "mood");
    let activities = lookup_field(header, fields, "activities");
    let note_title = lookup_field(header, fields, "note_title");
    let note = lookup_field(header, fields, "note");
    match (full_date, date, weekday, time, mood, activities, note_title, note) {
        (
            Option::Some(full_date),
            Option::Some(date),
            Option::Some(weekday),
            Option::Some(time),
            Option::Some(mood),
            Option::Some(activities),
            Option::Some(note_title),
            Option::Some(note),
        ) => Option::Some(
            MoodEntry { full_date, date, weekday, time, mood, activities, note_title, note },
        ),
        _ => Option::None,
    }
}

fn lookup_field(header: &Vec<String>, fields: &Vec<String>, name: &str) -> (r: Option<String>)
    ensures
        r is Some <==> field_at(header.deep_view(), fields.deep_view(), name@) is Some,
        r is Some ==> r->0@ == field_at(header.deep_view(), fields.deep_view(), name@)->0,
{
    let idx = crate::text::find_index(header, name);
    if idx < header.len() && idx < fields.len() {
        Option::Some(fields[idx].clone())
    } else {
        Option::None
    }
}

/// Read CSV text into mood entries, mirroring row order; `Err` exactly
/// when some data row does not supply every schema column.
pub fn parse_csv_string(csv_data: &str) -> (r: Result<Vec<MoodEntry>, ParseError>)
    ensures
        r is Ok <==> spec_parse_csv(csv_data@) is Some,
        r is Ok ==> r->Ok_0.deep_view() == spec_parse_csv(csv_data@)->Some_0,
{
    let recs = records_of(csv_data);
    if recs.len() == 0 {
        let empty: Vec<MoodEntry> = Vec::new();
        proof {
            assert(empty.deep_view() =~~= Seq::<MoodEntryModel>::empty());
        }
        return Result::Ok(empty);
    }
    let header = split_fields(recs[0].as_str());
    let ghost hdr = header.deep_view();
    let ghost rows = recs.deep_view().drop_first();
    let mut entries: Vec<MoodEntry> = Vec::new();
    let mut i: usize = 1;
    proof {
        assert(rows.skip(0) =~= rows);
        assert(entries.deep_view() =~~= Seq::<MoodEntryModel>::empty());
    }
    while i < recs.len()
        invariant
            1 <= i <= recs.len(),
            recs.deep_view() == csv_records(csv_data@),
            recs.deep_view().len() >= 1,
            hdr == fields_of(csv_records(csv_data@)[0]),
            hdr == header.deep_view(),
            rows == recs.deep_view().drop_first(),
            spec_parse_rows(hdr, rows) is Some <==> spec_parse_rows(hdr, rows.skip(i - 1))
                is Some,
            spec_parse_rows(hdr, rows) is Some ==> spec_parse_rows(hdr, rows)->0
                == entries.deep_view() + spec_parse_rows(hdr, rows.skip(i - 1))->0,
        decreases recs.len() - i,
    {
        let fields = split_fields(recs[i].as_str());
        proof {
            assert(rows.skip(i - 1).len() > 0);
            assert(rows.skip(i - 1)[0] == recs.deep_view()[i as int]);
            assert(rows.skip(i - 1).drop_first() =~= rows.skip(i as int));
        }
        match decode_row(&header, &fields) {
            Option::Some(e) => {
                let ghost old_entries = entries.deep_view();
                entries.push(e);
                proof {
                    assert(entries.deep_view() =~~= old_entries.push(e@));
                    if spec_parse_rows(hdr, rows) is Some {
                        assert(spec_parse_rows(hdr, rows.skip(i - 1))->0 =~= seq![e@]
                            + spec_parse_rows(hdr, rows.skip(i as int))->0);
                        assert(old_entries + spec_parse_rows(hdr, rows.skip(i - 1))->0
                            =~= entries.deep_view() + spec_parse_rows(hdr, rows.skip(i as int))->0);
                    }
                }
            },
            Option::None => {
                return Result::Err(ParseError);
            },
        }
        i = i + 1;
    }
    proof {
        assert(rows.skip(rows.len() as int).len() == 0);
        assert(spec_parse_rows(hdr, rows)->0 =~= entries.deep_view());
    }
    Result::Ok(entries)
}

} // verus!
