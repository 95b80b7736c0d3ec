//! Properties that hold across the library's functions.

use crate::form::{field_action, FieldAction};
use crate::group::{groups_of, in_year, text_lt, year_of, Dated, YearGroup};
use crate::paths::{
    final_component, is_plain_component, joined_path, lemma_final_component_plain, lemma_join_plain,
    lemma_numbered_plain, lemma_split_plain, plain_parts, probes_settled, upload_extension,
    upload_stem, MAX_COLLISION_COUNTER,
};
use crate::pictures::{other_than, stored_name, without};
use crate::json::list_or_empty;
use crate::queries::{
    decode_rows, named_column, named_project_row, project_row, read_named_opt_text, read_named_text,
    read_named_u16,
};
use crate::sql::{
    column_position, eq_ignoring_ascii_case, has_column, is_column_index, same_ignoring_ascii_case,
    SqlFault, SqlValue,
};
use crate::text::{
    all_digits, decimal, digit_char, digit_value, digits_value, env_entry, is_digit,
    is_filename_char, is_white_space, parsed_u16, sanitized, trim_end, trim_start, trimmed,
    unsigned_digits,
};
use vstd::prelude::*;

verus! {

proof fn lemma_filter_all<T>(s: Seq<T>, p: spec_fn(T) -> bool)
    requires
        forall|i: int| 0 <= i < s.len() ==> p(#[trigger] s[i]),
    ensures
        s.filter(p) == s,
    decreases s.len(),
{
    reveal_with_fuel(Seq::filter, 1);
    if s.len() > 0 {
        lemma_filter_all(s.drop_last(), p);
        assert(s.drop_last().push(s.last()) == s);
    }
}

proof fn lemma_filter_holds<T>(s: Seq<T>, p: spec_fn(T) -> bool)
    ensures
        forall|i: int| 0 <= i < s.filter(p).len() ==> p(#[trigger] s.filter(p)[i]),
{
    assert forall|i: int| 0 <= i < s.filter(p).len() implies p(#[trigger] s.filter(p)[i]) by {
        s.lemma_filter_pred(p, i);
    }
}

proof fn lemma_filter_in<T>(s: Seq<T>, p: spec_fn(T) -> bool, i: int)
    requires
        0 <= i < s.filter(p).len(),
    ensures
        s.contains(s.filter(p)[i]),
    decreases s.len(),
{
    reveal_with_fuel(Seq::filter, 1);
    if s.len() > 0 {
        let f = s.drop_last().filter(p);
        if i < f.len() {
            lemma_filter_in(s.drop_last(), p, i);
            let j = choose|j: int| 0 <= j < s.drop_last().len() && s.drop_last()[j] == f[i];
            assert(s[j] == f[i]);
        } else {
            assert(s[s.len() - 1] == s.filter(p)[i]);
        }
    }
}

/// A sanitized filename holds only ASCII letters, digits, `.`, `_` and `-`.
pub proof fn law_sanitized_chars_allowed(name: Seq<char>)
    ensures
        forall|i: int| 0 <= i < sanitized(name).len() ==> is_filename_char(#[trigger] sanitized(name)[i]),
{
    lemma_filter_holds(name, |c: char| is_filename_char(c));
}

/// Sanitizing a sanitized filename changes nothing.
pub proof fn law_sanitize_idempotent(name: Seq<char>)
    ensures
        sanitized(sanitized(name)) == sanitized(name),
{
    law_sanitized_chars_allowed(name);
    lemma_filter_all(sanitized(name), |c: char| is_filename_char(c));
}

proof fn lemma_decimal_value(n: nat)
    ensures
        decimal(n).len() > 0,
        all_digits(decimal(n)),
        digits_value(decimal(n)) == n,
    decreases n,
{
    let d = digit_char(n % 10);
    assert(is_digit(d) && digit_value(d) == n % 10);
    assert(n == (n / 10) * 10 + n % 10) by (nonlinear_arith);
    if n >= 10 {
        lemma_decimal_value(n / 10);
        let s = decimal(n);
        assert(s.drop_last() == decimal(n / 10));
        assert(s.last() == d);
        assert(digits_value(s) == digits_value(s.drop_last()) * 10 + digit_value(s.last()));
        assert forall|i: int| 0 <= i < s.len() implies is_digit(#[trigger] s[i]) by {
            if i < s.len() - 1 {
                assert(s[i] == decimal(n / 10)[i]);
            }
        }
    } else {
        assert(decimal(n) == seq![d]);
        assert(decimal(n).drop_last() == Seq::<char>::empty());
        assert(digits_value(Seq::<char>::empty()) == 0);
        assert(digits_value(decimal(n)) == digits_value(decimal(n).drop_last()) * 10 + digit_value(
            decimal(n).last(),
        ));
    }
}

/// A number written in decimal reads back as the same number: the text a
/// number setting is shown as parses to that setting.
pub proof fn law_decimal_reads_back(n: u16)
    ensures
        parsed_u16(decimal(n as nat)) == Some(n),
{
    lemma_decimal_value(n as nat);
    assert(is_digit(decimal(n as nat)[0]));
    assert(unsigned_digits(decimal(n as nat)) == decimal(n as nat));
}

/// Every record lies in the group of its own year and in no other.
pub proof fn law_group_membership<T: Dated>(gs: Seq<YearGroup<T>>, items: Seq<T>, j: int, k: int)
    requires
        groups_of(gs, items),
        0 <= j < items.len(),
        0 <= k < gs.len(),
    ensures
        gs[k].items@.contains(items[j]) <==> gs[k].year@ == year_of(items[j].date()),
{
    let p = in_year::<T>(gs[k].year@);
    assert(gs[k].items@ == items.filter(p));
    if gs[k].year@ == year_of(items[j].date()) {
        items.lemma_filter_contains(p, j);
    }
    if items.filter(p).contains(items[j]) {
        let i = choose|i: int| 0 <= i < items.filter(p).len() && items.filter(p)[i] == items[j];
        items.lemma_filter_pred(p, i);
    }
}

/// Deleting a picture that was just uploaded, to a list that did not hold
/// it, gives back the list as it was before the upload.
pub proof fn law_remove_after_upload(saved: Seq<Seq<char>>, name: Seq<char>)
    requires
        !saved.contains(name),
    ensures
        without(saved.push(name), name) == saved,
{
    let p = other_than(name);
    reveal_with_fuel(Seq::filter, 1);
    assert(saved.push(name).drop_last() == saved);
    assert forall|i: int| 0 <= i < saved.len() implies p(#[trigger] saved[i]) by {
        if saved[i] == name {
            assert(saved.contains(name));
        }
    }
    lemma_filter_all(saved, p);
}

/// After a deletion the list holds every name it held except the deleted one.
pub proof fn law_remove_contents(saved: Seq<Seq<char>>, name: Seq<char>, other: Seq<char>)
    ensures
        without(saved, name).contains(other) <==> (saved.contains(other) && other != name),
{
    let p = other_than(name);
    let w = saved.filter(p);
    if w.contains(other) {
        let i = choose|i: int| 0 <= i < w.len() && w[i] == other;
        saved.lemma_filter_pred(p, i);
        lemma_filter_in(saved, p, i);
    }
    if saved.contains(other) && other != name {
        let i = choose|i: int| 0 <= i < saved.len() && saved[i] == other;
        saved.lemma_filter_contains(p, i);
    }
}

/// Reading all rows gives one value per row, in row order.
pub proof fn law_rows_in_order<T>(
    rows: Seq<Vec<SqlValue>>,
    f: spec_fn(Vec<SqlValue>) -> Result<T, SqlFault>,
    out: Seq<T>,
)
    requires
        decode_rows(rows, f) == Ok::<Seq<T>, SqlFault>(out),
    ensures
        out.len() == rows.len(),
        forall|i: int| 0 <= i < rows.len() ==> f(#[trigger] rows[i]) == Ok::<T, SqlFault>(out[i]),
    decreases rows.len(),
{
    if rows.len() > 0 {
        let prefix = out.drop_last();
        match decode_rows(rows.drop_last(), f) {
            Ok(p) => {
                assert(out == p.push(out.last()));
                assert(p == prefix);
                law_rows_in_order(rows.drop_last(), f, prefix);
                assert forall|i: int| 0 <= i < rows.len() implies f(#[trigger] rows[i])
                    == Ok::<T, SqlFault>(out[i]) by {
                    if i < rows.len() - 1 {
                        assert(rows.drop_last()[i] == rows[i]);
                    }
                }
            },
            Err(_) => {},
        }
    }
}

proof fn lemma_trim_start_shape(s: Seq<char>)
    ensures
        trim_start(s).len() == 0 || !is_white_space(trim_start(s)[0]),
        trim_start(trim_start(s)) == trim_start(s),
    decreases s.len(),
{
    if s.len() > 0 && is_white_space(s[0]) {
        lemma_trim_start_shape(s.drop_first());
    }
}

proof fn lemma_trim_end_keeps_front(s: Seq<char>)
    requires
        s.len() == 0 || !is_white_space(s[0]),
    ensures
        trim_end(s).len() == 0 || (!is_white_space(trim_end(s)[0]) && !is_white_space(
            trim_end(s).last(),
        )),
        trim_end(trim_end(s)) == trim_end(s),
        trim_end(s).len() == 0 ==> s.len() == 0,
    decreases s.len(),
{
    if s.len() > 0 && is_white_space(s.last()) {
        assert(s.len() > 1);
        assert(s.drop_last()[0] == s[0]);
        lemma_trim_end_keeps_front(s.drop_last());
    }
}

/// Trimming trimmed text changes nothing.
pub proof fn law_trim_idempotent(s: Seq<char>)
    ensures
        trimmed(trimmed(s)) == trimmed(s),
{
    lemma_trim_start_shape(s);
    let a = trim_start(s);
    lemma_trim_end_keeps_front(a);
    let t = trim_end(a);
    if t.len() > 0 {
        assert(!is_white_space(t[0]));
        assert(trim_start(t) == t);
    } else {
        assert(trim_start(t) == t);
    }
}

/// The name and value that a `.env` line sets carry no surrounding whitespace.
pub proof fn law_env_entry_trimmed(line: Seq<char>)
    ensures
        env_entry(line) matches Some((k, v)) ==> trimmed(k) == k && trimmed(v) == v,
{
    if let Some((k, v)) = env_entry(line) {
        let (rk, rv) = crate::text::split_at_first(line, '=')->Some_0;
        law_trim_idempotent(rk);
        law_trim_idempotent(rv);
    }
}

/// Every name an uploaded picture can be stored under is one plain file
/// name, whatever name the file came with (`../x.jpg`, `a/b`, `..`, empty):
/// the path written is the project's folder followed by that name, and its
/// final component is that name, so the picture lands directly in the folder.
pub proof fn law_upload_stays_in_folder(dir: Seq<char>, filename: Seq<char>, k: nat)
    ensures
        is_plain_component(stored_name(filename, k)),
        final_component(joined_path(dir, stored_name(filename, k))) == Some(stored_name(filename, k)),
        joined_path(dir, stored_name(filename, k)).take(dir.len() as int) == dir,
{
    let clean = sanitized(filename);
    match final_component(clean) {
        Some(n) => {
            lemma_final_component_plain(clean);
            lemma_split_plain(n);
        },
        None => {
            let f = seq!['f', 'i', 'l', 'e'];
            assert(upload_stem(clean) == f);
            if f.contains('/') {
                let i = choose|i: int| 0 <= i < f.len() && f[i] == '/';
                assert(f[i] != '/');
            }
        },
    }
    assert(plain_parts(upload_stem(clean), upload_extension(clean)));
    lemma_numbered_plain(upload_stem(clean), upload_extension(clean), k);
    let n = stored_name(filename, k);
    lemma_join_plain(dir, n);
    if n[0] == '/' {
        assert(n.contains('/'));
    }
    assert(joined_path(dir, n).take(dir.len() as int) == dir);
}

/// The search for a free name stops at the first candidate the disk found
/// free: a record of answers that the search ends on holds no free answer
/// before its last one, and the last is free unless the counter ran out.
/// So the name taken is the first numbered candidate found free.
pub proof fn law_first_free_candidate(
    dir: Seq<char>,
    stem: Seq<char>,
    ext: Option<Seq<char>>,
    probes: Seq<(Seq<char>, bool)>,
    j: int,
)
    requires
        probes_settled(dir, stem, ext, probes),
        0 <= j < probes.len(),
        !probes[j].1,
    ensures
        j == probes.len() - 1,
        forall|i: int| 0 <= i < j ==> #[trigger] probes[i].1,
        probes.last().0 == joined_path(dir, crate::paths::numbered_name(stem, ext, j as nat)),
{
    if j < probes.len() - 1 {
        assert(probes[j].1);
    }
    assert(probes.last() == probes[probes.len() - 1]);
}

/// Text is ordered from its first character on: at the first position where
/// two texts differ, the smaller character makes the smaller text.
pub proof fn law_text_order_first_difference(a: Seq<char>, b: Seq<char>, i: int)
    requires
        0 <= i < a.len(),
        i < b.len(),
        a.take(i) == b.take(i),
        a[i] != b[i],
    ensures
        text_lt(a, b) == (a[i] < b[i]),
    decreases i,
{
    if i > 0 {
        assert(a[0] == a.take(i)[0]);
        assert(b[0] == b.take(i)[0]);
        assert(a.drop_first().take(i - 1) == a.take(i).drop_first());
        assert(b.drop_first().take(i - 1) == b.take(i).drop_first());
        law_text_order_first_difference(a.drop_first(), b.drop_first(), i - 1);
    }
}

/// A proper prefix of a text comes before it.
pub proof fn law_text_order_prefix_first(a: Seq<char>, b: Seq<char>)
    requires
        a.len() < b.len(),
        b.take(a.len() as int) == a,
    ensures
        text_lt(a, b),
    decreases a.len(),
{
    if a.len() > 0 {
        assert(a[0] == b.take(a.len() as int)[0]);
        assert(b.drop_first().take(a.drop_first().len() as int) == a.drop_first());
        law_text_order_prefix_first(a.drop_first(), b.drop_first());
    }
}

proof fn lemma_four_digits_value(a: Seq<char>)
    requires
        a.len() == 4,
    ensures
        digits_value(a) == digit_value(a[0]) * 1000 + digit_value(a[1]) * 100 + digit_value(a[2]) * 10
            + digit_value(a[3]),
{
    let a2 = a.drop_last();
    let a1 = a2.drop_last();
    let a0 = a1.drop_last();
    assert(a0.drop_last().len() == 0);
    assert(digits_value(a0) == digits_value(a0.drop_last()) * 10 + digit_value(a0.last()));
    assert(digits_value(a1) == digits_value(a0) * 10 + digit_value(a1.last()));
    assert(digits_value(a2) == digits_value(a1) * 10 + digit_value(a2.last()));
    assert(digits_value(a) == digits_value(a2) * 10 + digit_value(a.last()));
}

/// Two years written with four digits are ordered as their numbers are: the
/// later year is the greater text, so a newest-first order lists it first.
pub proof fn law_four_digit_years(a: Seq<char>, b: Seq<char>)
    requires
        a.len() == 4,
        b.len() == 4,
        forall|i: int| 0 <= i < 4 ==> '0' <= #[trigger] a[i] <= '9',
        forall|i: int| 0 <= i < 4 ==> '0' <= #[trigger] b[i] <= '9',
    ensures
        text_lt(a, b) == (digits_value(a) < digits_value(b)),
{
    lemma_four_digits_value(a);
    lemma_four_digits_value(b);
    assert('0' <= a[0] <= '9' && '0' <= a[1] <= '9' && '0' <= a[2] <= '9' && '0' <= a[3] <= '9');
    assert('0' <= b[0] <= '9' && '0' <= b[1] <= '9' && '0' <= b[2] <= '9' && '0' <= b[3] <= '9');
    if a[0] != b[0] {
        assert(a.take(0) == b.take(0));
        law_text_order_first_difference(a, b, 0);
    } else if a[1] != b[1] {
        assert(a.take(1) == b.take(1));
        law_text_order_first_difference(a, b, 1);
    } else if a[2] != b[2] {
        assert(a.take(2) == b.take(2));
        law_text_order_first_difference(a, b, 2);
    } else if a[3] != b[3] {
        assert(a.take(3) == b.take(3));
        law_text_order_first_difference(a, b, 3);
    } else {
        assert(a == b);
        crate::group::lemma_text_lt_irreflexive(a);
    }
}

/// The column names of `SELECT title, pictures, video, concept, dir, medium,
/// duration, release, id`, the query a single project is read with.
pub open spec fn project_query_columns() -> Seq<Seq<char>> {
    seq![
        "title"@,
        "pictures"@,
        "video"@,
        "concept"@,
        "dir"@,
        "medium"@,
        "duration"@,
        "release"@,
        "id"@,
    ]
}

proof fn lemma_named_at(c: Seq<String>, name: Seq<char>, k: int)
    requires
        0 <= k < c.len(),
        c[k]@ == name,
        forall|j: int| 0 <= j < k ==> !eq_ignoring_ascii_case(name, #[trigger] c[j]@),
    ensures
        named_column(c, name) == Ok::<int, SqlFault>(k),
{
    assert forall|i: int| 0 <= i < name.len() implies same_ignoring_ascii_case(
        #[trigger] name[i],
        c[k]@[i],
    ) by {}
    assert(eq_ignoring_ascii_case(name, c[k]@));
    assert(is_column_index(c, name, k));
    assert(has_column(c, name));
    let p = column_position(c, name);
    assert(is_column_index(c, name, p));
    if p < k {
        assert(!eq_ignoring_ascii_case(name, c[p]@));
    } else if p > k {
        assert(!eq_ignoring_ascii_case(name, c[k]@));
    }
}

proof fn lemma_differ_at_first(a: Seq<char>, b: Seq<char>)
    requires
        a.len() > 0,
        b.len() > 0,
        !same_ignoring_ascii_case(a[0], b[0]),
    ensures
        !eq_ignoring_ascii_case(a, b),
{
}

/// A project read from the row of its query holds, in each field, the value
/// of the column of that field's name: the title from `title`, the video
/// link from `video`, the date from `release`, the pictures from `pictures`,
/// and so on. Where every named column reads, the row reads as a project.
pub proof fn law_project_fields_by_column_name(c: Seq<String>, row: Vec<SqlValue>)
    requires
        c.len() == 9,
        forall|i: int| 0 <= i < 9 ==> #[trigger] c[i]@ == project_query_columns()[i],
        row@.len() == 9,
    ensures
        project_row(c, row) matches Ok(p) ==> {
            &&& read_named_text(c, row, "title"@) == Ok::<Seq<char>, SqlFault>(p.title)
            &&& read_named_opt_text(c, row, "video"@) == Ok::<Option<Seq<char>>, SqlFault>(
                p.video_link,
            )
            &&& read_named_text(c, row, "concept"@) == Ok::<Seq<char>, SqlFault>(p.concept)
            &&& read_named_text(c, row, "dir"@) == Ok::<Seq<char>, SqlFault>(p.dir)
            &&& read_named_opt_text(c, row, "medium"@) == Ok::<Option<Seq<char>>, SqlFault>(p.medium)
            &&& read_named_opt_text(c, row, "duration"@) == Ok::<Option<Seq<char>>, SqlFault>(
                p.duration,
            )
            &&& read_named_text(c, row, "release"@) == Ok::<Seq<char>, SqlFault>(p.date)
            &&& read_named_u16(c, row, "id"@) == Ok::<u16, SqlFault>(p.id)
            &&& read_named_text(c, row, "pictures"@) matches Ok(t) && p.saved_files == list_or_empty(t)
        },
        named_project_row(c, row) is Ok ==> project_row(c, row) == named_project_row(c, row),
{
    reveal_strlit("title");
    reveal_strlit("pictures");
    reveal_strlit("video");
    reveal_strlit("concept");
    reveal_strlit("dir");
    reveal_strlit("medium");
    reveal_strlit("duration");
    reveal_strlit("release");
    reveal_strlit("id");
    let n = project_query_columns();
    assert(c[0]@ == n[0] && c[1]@ == n[1] && c[2]@ == n[2] && c[3]@ == n[3] && c[4]@ == n[4]);
    assert(c[5]@ == n[5] && c[6]@ == n[6] && c[7]@ == n[7] && c[8]@ == n[8]);
    lemma_named_at(c, "title"@, 0);
    lemma_named_at(c, "pictures"@, 1);
    lemma_differ_at_first("video"@, c[0]@);
    lemma_named_at(c, "video"@, 2);
    lemma_named_at(c, "concept"@, 3);
    lemma_named_at(c, "dir"@, 4);
    lemma_named_at(c, "medium"@, 5);
    lemma_differ_at_first("duration"@, c[1]@);
    lemma_named_at(c, "duration"@, 6);
    lemma_differ_at_first("release"@, c[3]@);
    lemma_named_at(c, "release"@, 7);
    lemma_named_at(c, "id"@, 8);
}

/// Every text field of the project form is read, whether a project is
/// created or edited.
pub proof fn law_text_fields_are_read(edit: bool)
    ensures
        field_action(edit, Some("title"@)) == FieldAction::ReadValue,
        field_action(edit, Some("dir"@)) == FieldAction::ReadValue,
        field_action(edit, Some("id"@)) == FieldAction::ReadValue,
        field_action(edit, Some("medium"@)) == FieldAction::ReadValue,
        field_action(edit, Some("duration"@)) == FieldAction::ReadValue,
        field_action(edit, Some("date"@)) == FieldAction::ReadValue,
        field_action(edit, Some("video_link"@)) == FieldAction::ReadValue,
        field_action(edit, Some("concept"@)) == FieldAction::ReadValue,
{
    reveal_strlit("files");
    reveal_strlit("title");
    reveal_strlit("dir");
    reveal_strlit("id");
    reveal_strlit("medium");
    reveal_strlit("duration");
    reveal_strlit("date");
    reveal_strlit("video_link");
    reveal_strlit("concept");
}

/// Sanitizing keeps exactly the ASCII letters and digits and `.`, `_`, `-`:
/// it makes nothing of nothing, and a character added at the end survives
/// exactly when it is one of those.
pub proof fn law_sanitize_keeps_exactly(s: Seq<char>, c: char)
    ensures
        sanitized(Seq::<char>::empty()) == Seq::<char>::empty(),
        sanitized(s.push(c)) == if ('a' <= c && c <= 'z') || ('A' <= c && c <= 'Z') || ('0' <= c
            && c <= '9') || c == '.' || c == '_' || c == '-' {
            sanitized(s).push(c)
        } else {
            sanitized(s)
        },
{
    reveal_with_fuel(Seq::filter, 1);
    assert(s.push(c).drop_last() == s);
    assert(Seq::<char>::empty().filter(|c: char| is_filename_char(c)) == Seq::<char>::empty());
}

/// Editing a project never stores files: only a new project takes them.
pub proof fn law_edit_stores_no_files(name: Option<Seq<char>>)
    ensures
        field_action(true, name) != FieldAction::SaveFile,
        field_action(false, name) == FieldAction::SaveFile <==> name == Some("files"@),
{
    reveal_strlit("files");
    reveal_strlit("title");
    reveal_strlit("dir");
    reveal_strlit("id");
    reveal_strlit("medium");
    reveal_strlit("duration");
    reveal_strlit("date");
    reveal_strlit("video_link");
    reveal_strlit("concept");
    assert("files"@[0] != "title"@[0]);
}

} // verus!
