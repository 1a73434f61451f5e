//! The forecast as HTML: an editable data table, and the poster page that a
//! browser turns into the Instagram and YouTube images.
//!
//! Reading the template, resolving paths and writing files are done by the
//! application; the library builds the documents.

use vstd::prelude::*;
use crate::model::{day_views, DayForecast, DayView};
use crate::text::{
    chars_of, decimal, lemma_replace_absent, push_chars, push_decimal, push_text, replace,
    replace_chars, starts_with, starts_with_chars, string_of,
};

verus! {

/// The HTML escape of one character.
pub open spec fn escape_char(c: char) -> Seq<char> {
    if c == '&' {
        "&amp;"@
    } else if c == '<' {
        "&lt;"@
    } else if c == '>' {
        "&gt;"@
    } else if c == '"' {
        "&quot;"@
    } else {
        seq![c]
    }
}

/// `s` with `&`, `<`, `>` and `"` written as entities.
pub open spec fn escaped(s: Seq<char>) -> Seq<char>
    decreases s.len(),
{
    if s.len() == 0 {
        Seq::empty()
    } else {
        escaped(s.drop_last()) + escape_char(s.last())
    }
}

/// Escaping works character by character: escaping a concatenation is
/// concatenating the escapes.
pub proof fn lemma_escaped_concat(a: Seq<char>, b: Seq<char>)
    ensures
        escaped(a + b) == escaped(a) + escaped(b),
    decreases b.len(),
{
    if b.len() == 0 {
        assert(a + b =~= a);
        assert(escaped(a) + escaped(b) =~= escaped(a));
    } else {
        lemma_escaped_concat(a, b.drop_last());
        assert((a + b).drop_last() =~= a + b.drop_last());
        assert((a + b).last() == b.last());
        assert(escaped(a) + escaped(b) =~= escaped(a) + escaped(b.drop_last()) + escape_char(b.last()));
    }
}

/// Escaped text holds no `<`, `>` or `"`, so it cannot open or close a tag
/// or an attribute value.
pub proof fn lemma_escaped_has_no_markup(s: Seq<char>)
    ensures
        forall|i: int|
            0 <= i < escaped(s).len() ==> #[trigger] escaped(s)[i] != '<' && escaped(s)[i] != '>'
                && escaped(s)[i] != '"',
    decreases s.len(),
{
    reveal_strlit("&amp;");
    reveal_strlit("&lt;");
    reveal_strlit("&gt;");
    reveal_strlit("&quot;");
    if s.len() > 0 {
        lemma_escaped_has_no_markup(s.drop_last());
        let e = escaped(s.drop_last());
        let t = escape_char(s.last());
        assert(escaped(s) == e + t);
        assert forall|i: int| 0 <= i < escaped(s).len() implies #[trigger] escaped(s)[i] != '<'
            && escaped(s)[i] != '>' && escaped(s)[i] != '"' by {
            if i < e.len() {
                assert(escaped(s)[i] == e[i]);
            } else {
                assert(escaped(s)[i] == t[i - e.len()]);
            }
        }
    }
}

/// Text without `&`, `<`, `>` and `"` is its own escape.
pub proof fn lemma_plain_text_unescaped(s: Seq<char>)
    requires
        forall|i: int|
            0 <= i < s.len() ==> s[i] != '&' && s[i] != '<' && s[i] != '>' && s[i] != '"',
    ensures
        escaped(s) == s,
    decreases s.len(),
{
    if s.len() > 0 {
        lemma_plain_text_unescaped(s.drop_last());
        assert(s.drop_last() + seq![s.last()] =~= s);
    }
}

/// The level at which a character is escaped when unescaping peels the
/// entities off one by one: `&` 1, `<` 2, `>` 3, `"` 4, any other 0.
pub open spec fn entity_level(c: char) -> int {
    if c == '&' {
        1
    } else if c == '<' {
        2
    } else if c == '>' {
        3
    } else if c == '"' {
        4
    } else {
        0
    }
}

/// `c` escaped if its level is at most `k`.
pub open spec fn escape_upto_char(k: int, c: char) -> Seq<char> {
    if 0 < entity_level(c) <= k {
        escape_char(c)
    } else {
        seq![c]
    }
}

/// `s` with the characters of level at most `k` escaped.
pub open spec fn escaped_upto(k: int, s: Seq<char>) -> Seq<char>
    decreases s.len(),
{
    if s.len() == 0 {
        Seq::empty()
    } else {
        escape_upto_char(k, s[0]) + escaped_upto(k, s.drop_first())
    }
}

/// The entity that unescaping turns back at level `k`, and its character.
pub open spec fn level_entity(k: int) -> Seq<char> {
    if k == 1 {
        "&amp;"@
    } else if k == 2 {
        "&lt;"@
    } else if k == 3 {
        "&gt;"@
    } else {
        "&quot;"@
    }
}

pub open spec fn level_char(k: int) -> char {
    if k == 1 {
        '&'
    } else if k == 2 {
        '<'
    } else if k == 3 {
        '>'
    } else {
        '"'
    }
}

/// Undoing `escape`: `&quot;`, `&gt;`, `&lt;` and last `&amp;` replaced by
/// their characters, in that order.
pub open spec fn unescaped(t: Seq<char>) -> Seq<char> {
    replace(
        replace(replace(replace(t, "&quot;"@, "\""@), "&gt;"@, ">"@), "&lt;"@, "<"@),
        "&amp;"@,
        "&"@,
    )
}

proof fn lemma_replace_skips_plain(b: Seq<char>, r: Seq<char>, e: Seq<char>, y: Seq<char>)
    requires
        e.len() > 0,
        e[0] == '&',
        forall|i: int| 0 <= i < b.len() ==> b[i] != '&',
    ensures
        replace(b + r, e, y) == b + replace(r, e, y),
    decreases b.len(),
{
    if b.len() > 0 {
        let s = b + r;
        if s.len() >= e.len() {
            assert(s.take(e.len() as int)[0] == b[0]);
        }
        assert(s.drop_first() =~= b.drop_first() + r);
        lemma_replace_skips_plain(b.drop_first(), r, e, y);
        assert(b =~= seq![b[0]] + b.drop_first());
        assert(seq![s[0]] + (b.drop_first() + replace(r, e, y)) =~= b + replace(r, e, y));
    } else {
        assert(b + r =~= r);
        assert(b + replace(r, e, y) =~= replace(r, e, y));
    }
}

proof fn lemma_replace_skips_entity(f: Seq<char>, r: Seq<char>, e: Seq<char>, y: Seq<char>)
    requires
        e.len() >= 2,
        f.len() >= 2,
        e[0] == '&',
        f[0] == '&',
        f[1] != e[1],
        forall|i: int| 1 <= i < f.len() ==> f[i] != '&',
    ensures
        replace(f + r, e, y) == f + replace(r, e, y),
{
    let s = f + r;
    let rest = f.drop_first();
    if s.len() >= e.len() {
        assert(s.take(e.len() as int)[1] == f[1]);
    }
    assert(s.drop_first() =~= rest + r);
    lemma_replace_skips_plain(rest, r, e, y);
    assert(seq![s[0]] + (rest + replace(r, e, y)) =~= f + replace(r, e, y));
}

proof fn lemma_replace_entity(e: Seq<char>, r: Seq<char>, y: Seq<char>)
    requires
        e.len() > 0,
    ensures
        replace(e + r, e, y) == y + replace(r, e, y),
{
    let s = e + r;
    assert(s.take(e.len() as int) =~= e);
    assert(s.skip(e.len() as int) =~= r);
}

proof fn lemma_unescape_level(k: int, s: Seq<char>)
    requires
        1 <= k <= 4,
    ensures
        replace(escaped_upto(k, s), level_entity(k), seq![level_char(k)]) == escaped_upto(k - 1, s),
    decreases s.len(),
{
    reveal_strlit("&amp;");
    reveal_strlit("&lt;");
    reveal_strlit("&gt;");
    reveal_strlit("&quot;");
    if s.len() > 0 {
        let c = s[0];
        let e = level_entity(k);
        let y = seq![level_char(k)];
        let rest_k = escaped_upto(k, s.drop_first());
        lemma_unescape_level(k, s.drop_first());
        if entity_level(c) == k {
            lemma_replace_entity(e, rest_k, y);
            assert(escape_upto_char(k - 1, c) =~= y);
        } else if 0 < entity_level(c) < k {
            let f = escape_char(c);
            lemma_replace_skips_entity(f, rest_k, e, y);
        } else {
            lemma_replace_skips_plain(seq![c], rest_k, e, y);
        }
    } else {
        assert(escaped_upto(k, s) =~= Seq::<char>::empty());
    }
}

proof fn lemma_escaped_is_upto_four(s: Seq<char>)
    ensures
        escaped(s) == escaped_upto(4, s),
    decreases s.len(),
{
    if s.len() > 0 {
        lemma_escaped_is_upto_four(s.drop_first());
        lemma_escaped_concat(seq![s[0]], s.drop_first());
        assert(seq![s[0]] + s.drop_first() =~= s);
        let one = seq![s[0]];
        assert(one.drop_last() =~= Seq::<char>::empty());
        assert(one.last() == s[0]);
        assert(escaped(one.drop_last()) == Seq::<char>::empty());
        assert(escaped(one) =~= escape_char(s[0]));
    }
}

proof fn lemma_upto_zero(s: Seq<char>)
    ensures
        escaped_upto(0, s) == s,
    decreases s.len(),
{
    if s.len() > 0 {
        lemma_upto_zero(s.drop_first());
        assert(seq![s[0]] + s.drop_first() =~= s);
    }
}

/// Unescaping an escaped text gives the text back.
pub proof fn lemma_escape_round_trip(s: Seq<char>)
    ensures
        unescaped(escaped(s)) == s,
{
    reveal_strlit("&amp;");
    reveal_strlit("&lt;");
    reveal_strlit("&gt;");
    reveal_strlit("&quot;");
    reveal_strlit("\"");
    reveal_strlit(">");
    reveal_strlit("<");
    reveal_strlit("&");
    lemma_escaped_is_upto_four(s);
    assert("\""@ =~= seq![level_char(4)]);
    assert(">"@ =~= seq![level_char(3)]);
    assert("<"@ =~= seq![level_char(2)]);
    assert("&"@ =~= seq![level_char(1)]);
    lemma_unescape_level(4, s);
    lemma_unescape_level(3, s);
    lemma_unescape_level(2, s);
    lemma_unescape_level(1, s);
    lemma_upto_zero(s);
}

/// Appends the HTML escape of `s` to `out`.
pub fn push_escaped(out: &mut String, s: &str)
    ensures
        final(out)@ == old(out)@ + escaped(s@),
{
    let chars = chars_of(s);
    for i in 0..chars.len()
        invariant
            chars@ == s@,
            out@ == old(out)@ + escaped(s@.take(i as int)),
    {
        let c = chars[i];
        let ghost before = out@;
        if c == '&' {
            push_text(out, "&amp;");
        } else if c == '<' {
            push_text(out, "&lt;");
        } else if c == '>' {
            push_text(out, "&gt;");
        } else if c == '"' {
            push_text(out, "&quot;");
        } else {
            out.push(c);
        }
        assert(s@.take(i + 1).drop_last() == s@.take(i as int));
        assert(out@ == before + escape_char(c));
    }
    assert(s@.take(chars.len() as int) == s@);
}

/// `s` with `&`, `<`, `>` and `"` written as entities.
pub fn escape(s: &str) -> (r: String)
    ensures
        r@ == escaped(s@),
{
    let mut r = String::new();
    push_escaped(&mut r, s);
    r
}

/// The text of a canonical path made into a `file://` URL: a Windows
/// verbatim prefix (`\\?\`) is dropped and backslashes become slashes; a
/// path that starts with `/` gets `file://`, any other (a drive letter) gets
/// `file:///`.
pub open spec fn file_url(canonical: Seq<char>) -> Seq<char> {
    let stripped = if starts_with(canonical, "\\\\?\\"@) {
        canonical.skip(4)
    } else {
        canonical
    };
    let p = replace(stripped, "\\"@, "/"@);
    if p.len() > 0 && p[0] == '/' {
        "file://"@ + p
    } else {
        "file:///"@ + p
    }
}

/// A POSIX path (it starts with `/` and holds no backslash) becomes
/// `file://` followed by the path unchanged.
pub proof fn lemma_posix_file_url(p: Seq<char>)
    requires
        p.len() > 0,
        p[0] == '/',
        forall|i: int| 0 <= i < p.len() ==> p[i] != '\\',
    ensures
        file_url(p) == "file://"@ + p,
{
    reveal_strlit("\\\\?\\");
    reveal_strlit("\\");
    reveal_strlit("/");
    assert(!starts_with(p, "\\\\?\\"@)) by {
        if starts_with(p, "\\\\?\\"@) {
            assert(p.take(4)[0] == p[0]);
        }
    }
    assert("\\"@ == seq!['\\']);
    lemma_replace_absent(p, '\\', "/"@);
}

/// Builds a `file://` URL from the text of a canonical (absolute) path.
pub fn to_file_url(canonical_path: &str) -> (r: String)
    ensures
        r@ == file_url(canonical_path@),
{
    let chars = chars_of(canonical_path);
    let prefix = chars_of("\\\\?\\");
    let stripped: Vec<char> = if starts_with_chars(&chars, &prefix) {
        proof {
            reveal_strlit("\\\\?\\");
        }
        let mut v: Vec<char> = Vec::new();
        let mut i: usize = 4;
        while i < chars.len()
            invariant
                4 <= i <= chars.len(),
                v@ == chars@.subrange(4, i as int),
            decreases chars.len() - i,
        {
            v.push(chars[i]);
            assert(chars@.subrange(4, i + 1) == chars@.subrange(4, i as int).push(chars@[i as int]));
            i = i + 1;
        }
        assert(v@ == chars@.skip(4));
        v
    } else {
        chars
    };
    let backslash = chars_of("\\");
    let slash = chars_of("/");
    proof {
        reveal_strlit("\\");
    }
    let p = replace_chars(&stripped, &backslash, &slash);
    let mut r = String::new();
    if p.len() > 0 && p[0] == '/' {
        push_text(&mut r, "file://");
    } else {
        push_text(&mut r, "file:///");
    }
    push_chars(&mut r, &p);
    r
}

/// The data table page up to the title.
pub const TABLE_HEAD: &'static str = "<!DOCTYPE html>\n<html lang=\"kn\">\n<head>\n<meta charset=\"UTF-8\">\n<title>";

/// Between the page title and the heading.
pub const TABLE_AFTER_TITLE: &'static str = "</title>\n</head>\n<body>\n  <h1>";

/// After the heading, up to the first row.
pub const TABLE_AFTER_HEADING: &'static str = "</h1>\n  <table border=\"1\" cellpadding=\"6\" cellspacing=\"0\">\n    <thead>\n      <tr>\n        <th>Day</th><th>Date</th><th>Condition</th><th>High</th><th>Low</th><th>Summary</th>\n      </tr>\n    </thead>\n    <tbody>\n";

/// After the last row.
pub const TABLE_TAIL: &'static str = "    </tbody>\n  </table>\n</body>\n</html>\n";

pub const ROW_OPEN: &'static str = "    <tr>\n      <td>";

pub const CELL_BREAK: &'static str = "</td>\n      <td>";

pub const ROW_CLOSE: &'static str = "</td>\n    </tr>\n";

/// One row of the data table: day, date, condition, high, low, summary.
pub open spec fn table_row(d: DayView) -> Seq<char> {
    ROW_OPEN@ + escaped(d.day_name) + CELL_BREAK@ + escaped(d.date) + CELL_BREAK@ + escaped(
        d.condition,
    ) + CELL_BREAK@ + escaped(d.high_temp) + CELL_BREAK@ + escaped(d.low_temp) + CELL_BREAK@
        + escaped(d.summary) + ROW_CLOSE@
}

/// The rows of the data table, in order.
pub open spec fn table_rows(days: Seq<DayView>) -> Seq<char>
    decreases days.len(),
{
    if days.len() == 0 {
        Seq::empty()
    } else {
        table_rows(days.drop_last()) + table_row(days.last())
    }
}

fn table_row_html(d: &DayForecast) -> (r: String)
    ensures
        r@ == table_row(d@),
{
    let mut r = String::new();
    push_text(&mut r, ROW_OPEN);
    push_escaped(&mut r, d.day_name.as_str());
    push_text(&mut r, CELL_BREAK);
    push_escaped(&mut r, d.date.as_str());
    push_text(&mut r, CELL_BREAK);
    push_escaped(&mut r, d.condition.as_str());
    push_text(&mut r, CELL_BREAK);
    push_escaped(&mut r, d.high_temp.as_str());
    push_text(&mut r, CELL_BREAK);
    push_escaped(&mut r, d.low_temp.as_str());
    push_text(&mut r, CELL_BREAK);
    push_escaped(&mut r, d.summary.as_str());
    push_text(&mut r, ROW_CLOSE);
    assert(r@ =~= table_row(d@));
    r
}

/// The editable data table page for `days` under `title`.
pub open spec fn data_table_page(days: Seq<DayView>, title: Seq<char>) -> Seq<char> {
    TABLE_HEAD@ + escaped(title) + TABLE_AFTER_TITLE@ + escaped(title) + TABLE_AFTER_HEADING@
        + table_rows(days) + TABLE_TAIL@
}

/// The forecast as a clean, human-editable HTML table: the file to hand-edit
/// before the images are made, and what the narration is read from.
/// Writing it to disk is the caller's part.
pub fn data_table_html(days: &[DayForecast], title: &str) -> (r: String)
    ensures
        r@ == data_table_page(day_views(days@), title@),
{
    let mut rows = String::new();
    let ghost all = day_views(days@);
    for i in 0..days.len()
        invariant
            all == day_views(days@),
            rows@ == table_rows(all.take(i as int)),
    {
        let d = &days[i];
        let row = table_row_html(d);
        push_text(&mut rows, row.as_str());
        assert(all.take(i + 1).drop_last() =~= all.take(i as int));
        assert(all.take(i + 1).last() == d@);
    }
    assert(all.take(days.len() as int) =~= all);
    let mut html = String::new();
    push_text(&mut html, TABLE_HEAD);
    push_escaped(&mut html, title);
    push_text(&mut html, TABLE_AFTER_TITLE);
    push_escaped(&mut html, title);
    push_text(&mut html, TABLE_AFTER_HEADING);
    push_text(&mut html, rows.as_str());
    push_text(&mut html, TABLE_TAIL);
    html
}

/// The table rows of two runs of days, one after the other, are the rows of
/// the first run followed by the rows of the second.
pub proof fn lemma_table_rows_concat(x: Seq<DayView>, y: Seq<DayView>)
    ensures
        table_rows(x + y) == table_rows(x) + table_rows(y),
    decreases y.len(),
{
    if y.len() == 0 {
        assert(x + y =~= x);
        assert(table_rows(x) + table_rows(y) =~= table_rows(x));
    } else {
        assert((x + y).drop_last() =~= x + y.drop_last());
        assert((x + y).last() == y.last());
        lemma_table_rows_concat(x, y.drop_last());
        assert(table_rows(x + y) =~= table_rows(x) + table_rows(y));
    }
}

/// Every day has its own row in the data table, in the order of the days:
/// the table is the rows of the days before day `i`, then the row of day `i`
/// (its day name, date, condition and temperatures), then the rows of the
/// days after it. With two days, the table is the first day's row and then
/// the second's.
pub proof fn lemma_table_rows_each_day(days: Seq<DayView>, i: int)
    requires
        0 <= i < days.len(),
    ensures
        table_rows(days) == table_rows(days.take(i)) + table_row(days[i]) + table_rows(
            days.skip(i + 1),
        ),
        table_rows(seq![days[i]]) == table_row(days[i]),
        days.len() == 2 ==> table_rows(days) == table_row(days[0]) + table_row(days[1]),
{
    let one = seq![days[i]];
    assert(one.drop_last() =~= Seq::<DayView>::empty());
    assert(table_rows(one.drop_last()) =~= Seq::<char>::empty());
    assert(one.last() == days[i]);
    assert(table_rows(one) =~= table_row(days[i]));
    assert(days =~= days.take(i) + one + days.skip(i + 1));
    lemma_table_rows_concat(days.take(i) + one, days.skip(i + 1));
    lemma_table_rows_concat(days.take(i), one);
    if days.len() == 2 {
        let a = seq![days[0]];
        let b = seq![days[1]];
        assert(a.drop_last() =~= Seq::<DayView>::empty());
        assert(b.drop_last() =~= Seq::<DayView>::empty());
        assert(days =~= a + b);
        lemma_table_rows_concat(a, b);
        assert(table_rows(a) =~= table_row(days[0]));
        assert(table_rows(b) =~= table_row(days[1]));
    }
}

/// Static, aspect-ratio-specific options. Row sizing (font size, row height,
/// padding) is not here: it is computed per render from the number of days,
/// sharing the available height among the rows down to the smallest row
/// height (see `poster_metrics` for when the rows fit).
#[derive(Debug, Clone, Copy, PartialEq, Eq)]
pub struct PosterLayout {
    pub width: u32,
    pub height: u32,
    pub padding: u32,
    pub title_size: u32,
    pub subtitle_size: u32,
    pub header_height: u32,
    pub max_row_font: u32,
    pub min_row_font: u32,
}

pub open spec fn instagram_layout() -> PosterLayout {
    PosterLayout {
        width: 1080,
        height: 1920,
        padding: 56,
        title_size: 52,
        subtitle_size: 28,
        header_height: 150,
        max_row_font: 30,
        min_row_font: 16,
    }
}

pub open spec fn youtube_layout() -> PosterLayout {
    PosterLayout {
        width: 1920,
        height: 1080,
        padding: 48,
        title_size: 46,
        subtitle_size: 24,
        header_height: 110,
        max_row_font: 26,
        min_row_font: 14,
    }
}

impl PosterLayout {
    /// The 1080x1920 (9:16) Instagram poster.
    pub fn instagram_9x16() -> (r: Self)
        ensures
            r == instagram_layout(),
    {
        Self {
            width: 1080,
            height: 1920,
            padding: 56,
            title_size: 52,
            subtitle_size: 28,
            header_height: 150,
            max_row_font: 30,
            min_row_font: 16,
        }
    }

    /// The 1920x1080 (16:9) YouTube poster.
    pub fn youtube_16x9() -> (r: Self)
        ensures
            r == youtube_layout(),
    {
        Self {
            width: 1920,
            height: 1080,
            padding: 48,
            title_size: 46,
            subtitle_size: 24,
            header_height: 110,
            max_row_font: 26,
            min_row_font: 14,
        }
    }
}

/// The Instagram poster is 9:16 and the YouTube poster 16:9, and each has
/// room for its header inside its padding.
pub proof fn lemma_layout_aspect_ratios()
    ensures
        instagram_layout().width * 16 == instagram_layout().height * 9,
        youtube_layout().width * 9 == youtube_layout().height * 16,
        instagram_layout().min_row_font <= instagram_layout().max_row_font,
        youtube_layout().min_row_font <= youtube_layout().max_row_font,
        2 * instagram_layout().padding + instagram_layout().header_height
            < instagram_layout().height,
        2 * youtube_layout().padding + youtube_layout().header_height < youtube_layout().height,
{
}

/// Gap between table rows, in pixels.
pub const ROW_GAP: u32 = 8;

/// The smallest row height, in pixels.
pub const MIN_ROW_HEIGHT: u32 = 40;

/// Row sizing computed from the layout and the number of days.
#[derive(Debug, Clone, Copy, PartialEq, Eq)]
pub struct PosterMetrics {
    /// Height left for the table below the header, inside the padding.
    pub table_height: u32,
    pub row_height: u32,
    /// Horizontal cell padding.
    pub row_pad_h: u32,
}

/// Font sizing that the caller derives from the row height.
#[derive(Debug, Clone, Copy, PartialEq, Eq)]
pub struct RowFonts {
    pub row_font_size: u32,
    pub summary_font_size: u32,
    pub summary_max_lines: u32,
}

pub open spec fn sat_sub(a: int, b: int) -> int {
    if a > b {
        a - b
    } else {
        0
    }
}

pub open spec fn max_int(a: int, b: int) -> int {
    if a >= b {
        a
    } else {
        b
    }
}

/// Rows are sized for at least one day.
pub open spec fn row_slots(n_days: int) -> int {
    max_int(n_days, 1)
}

pub open spec fn table_height_of(l: PosterLayout) -> int {
    sat_sub(sat_sub(l.height as int, 2 * l.padding), l.header_height as int)
}

/// The table height shared out among the rows after the gaps, but never
/// below the smallest row height.
pub open spec fn row_height_of(l: PosterLayout, n_days: int) -> int {
    let n = row_slots(n_days);
    max_int(sat_sub(table_height_of(l), ROW_GAP * (n - 1)) / n, MIN_ROW_HEIGHT as int)
}

/// Whether `n_days` rows of the computed height, with the gaps between
/// them, take no more than the table height.
pub open spec fn rows_fit(l: PosterLayout, n_days: int) -> bool {
    n_days * row_height_of(l, n_days) + ROW_GAP * (n_days - 1) <= table_height_of(l)
}

/// Whether `n_days` rows of the smallest row height, with their gaps, fit
/// in the table height.
pub open spec fn fit_at_min_height(l: PosterLayout, n_days: int) -> bool {
    n_days * MIN_ROW_HEIGHT + ROW_GAP * (n_days - 1) <= table_height_of(l)
}

pub open spec fn row_pad_h_of(l: PosterLayout) -> int {
    max_int((l.padding / 3) as int, 10)
}

/// Vertical cell padding: what the row leaves around two lines of text.
pub open spec fn row_pad_v_of(row_height: int, row_font_size: int) -> int {
    sat_sub(row_height, row_font_size * 2) / 2
}

/// The layouts and day counts whose sizing stays within `u32`.
pub open spec fn metrics_in_range(l: PosterLayout, n_days: int) -> bool {
    &&& 2 * l.padding <= u32::MAX
    &&& n_days <= u32::MAX
    &&& ROW_GAP * (row_slots(n_days) - 1) <= u32::MAX
}

/// The row sizing for `n_days` rows on `layout`. The rows fit in the
/// table exactly when they would at the smallest row height; with more
/// rows than that they overflow it.
pub fn poster_metrics(layout: &PosterLayout, n_days: usize) -> (m: PosterMetrics)
    requires
        metrics_in_range(*layout, n_days as int),
    ensures
        m.table_height == table_height_of(*layout),
        m.row_height == row_height_of(*layout, n_days as int),
        m.row_pad_h == row_pad_h_of(*layout),
        m.row_height >= MIN_ROW_HEIGHT,
        n_days >= 1 ==> (rows_fit(*layout, n_days as int) <==> fit_at_min_height(
            *layout,
            n_days as int,
        )),
{
    proof {
        if n_days >= 1 {
            lemma_rows_fit(*layout, n_days as int);
        }
    }
    let n: u32 = if n_days > 1 {
        n_days as u32
    } else {
        1
    };
    let available_height = layout.height.saturating_sub(2 * layout.padding).saturating_sub(
        layout.header_height,
    );
    let table_height = available_height;
    let row_height = table_height.saturating_sub(ROW_GAP * (n.saturating_sub(1))) / n;
    let row_height = if row_height > MIN_ROW_HEIGHT {
        row_height
    } else {
        MIN_ROW_HEIGHT
    };
    let third = layout.padding / 3;
    let row_pad_h = if third > 10 {
        third
    } else {
        10
    };
    PosterMetrics { table_height, row_height, row_pad_h }
}

/// Rows fit inside the table height exactly when they fit at the smallest
/// row height, whatever their number: then the computed rows, gaps
/// included, take no more than the table; otherwise the rows, never below
/// the smallest height, overflow it. No row is shorter than that height.
pub proof fn lemma_rows_fit(l: PosterLayout, n_days: int)
    requires
        n_days >= 1,
    ensures
        row_height_of(l, n_days) >= MIN_ROW_HEIGHT,
        rows_fit(l, n_days) <==> fit_at_min_height(l, n_days),
{
    let t = table_height_of(l);
    let h = MIN_ROW_HEIGHT as int;
    let r = row_height_of(l, n_days);
    assert(n_days * r >= n_days * h) by (nonlinear_arith)
        requires
            n_days >= 1,
            r >= h,
    ;
    if fit_at_min_height(l, n_days) {
        let avail = t - ROW_GAP * (n_days - 1);
        assert(avail >= n_days * h);
        assert(sat_sub(t, ROW_GAP * (n_days - 1)) == avail);
        let q = avail / n_days;
        assert(q >= h && n_days * q <= avail) by (nonlinear_arith)
            requires
                n_days >= 1,
                avail >= n_days * h,
                q == avail / n_days,
        ;
    }
}

/// The report's posters: the Instagram poster fits up to 34 rows and the
/// YouTube poster up to 18; more rows overflow each.
pub proof fn lemma_poster_rows_fit(n_days: int)
    requires
        n_days >= 1,
    ensures
        rows_fit(instagram_layout(), n_days) <==> n_days <= 34,
        rows_fit(youtube_layout(), n_days) <==> n_days <= 18,
{
    assert(table_height_of(instagram_layout()) == 1658);
    assert(table_height_of(youtube_layout()) == 874);
    lemma_rows_fit(instagram_layout(), n_days);
    lemma_rows_fit(youtube_layout(), n_days);
}

pub const POSTER_ROW_OPEN: &'static str = "    <tr>\n      <td class=\"day\">";

pub const POSTER_CONDITION: &'static str = "</td>\n      <td class=\"condition\">";

pub const POSTER_TEMPS: &'static str = "</td>\n      <td class=\"temps\">";

pub const POSTER_SUMMARY: &'static str = "</td>\n      <td class=\"summary\">";

/// One row of the poster table: "day date", condition, "high / low", summary.
pub open spec fn poster_row(d: DayView) -> Seq<char> {
    POSTER_ROW_OPEN@ + escaped(d.day_name) + " "@ + escaped(d.date) + POSTER_CONDITION@ + escaped(
        d.condition,
    ) + POSTER_TEMPS@ + escaped(d.high_temp) + " / "@ + escaped(d.low_temp) + POSTER_SUMMARY@
        + escaped(d.summary) + ROW_CLOSE@
}

pub open spec fn poster_rows(days: Seq<DayView>) -> Seq<char>
    decreases days.len(),
{
    if days.len() == 0 {
        Seq::empty()
    } else {
        poster_rows(days.drop_last()) + poster_row(days.last())
    }
}

fn poster_row_html(d: &DayForecast) -> (r: String)
    ensures
        r@ == poster_row(d@),
{
    let mut r = String::new();
    push_text(&mut r, POSTER_ROW_OPEN);
    push_escaped(&mut r, d.day_name.as_str());
    push_text(&mut r, " ");
    push_escaped(&mut r, d.date.as_str());
    push_text(&mut r, POSTER_CONDITION);
    push_escaped(&mut r, d.condition.as_str());
    push_text(&mut r, POSTER_TEMPS);
    push_escaped(&mut r, d.high_temp.as_str());
    push_text(&mut r, " / ");
    push_escaped(&mut r, d.low_temp.as_str());
    push_text(&mut r, POSTER_SUMMARY);
    push_escaped(&mut r, d.summary.as_str());
    push_text(&mut r, ROW_CLOSE);
    assert(r@ =~= poster_row(d@));
    r
}

/// The rows of the poster table.
pub fn poster_rows_html(days: &[DayForecast]) -> (r: String)
    ensures
        r@ == poster_rows(day_views(days@)),
{
    let mut rows = String::new();
    let ghost all = day_views(days@);
    for i in 0..days.len()
        invariant
            all == day_views(days@),
            rows@ == poster_rows(all.take(i as int)),
    {
        let d = &days[i];
        let row = poster_row_html(d);
        push_text(&mut rows, row.as_str());
        assert(all.take(i + 1).drop_last() =~= all.take(i as int));
        assert(all.take(i + 1).last() == d@);
    }
    assert(all.take(days.len() as int) =~= all);
    rows
}

/// The poster rows of two runs of days, one after the other, are the rows of
/// the first run followed by the rows of the second.
pub proof fn lemma_poster_rows_concat(x: Seq<DayView>, y: Seq<DayView>)
    ensures
        poster_rows(x + y) == poster_rows(x) + poster_rows(y),
    decreases y.len(),
{
    if y.len() == 0 {
        assert(x + y =~= x);
        assert(poster_rows(x) + poster_rows(y) =~= poster_rows(x));
    } else {
        assert((x + y).drop_last() =~= x + y.drop_last());
        assert((x + y).last() == y.last());
        lemma_poster_rows_concat(x, y.drop_last());
        assert(poster_rows(x + y) =~= poster_rows(x) + poster_rows(y));
    }
}

/// Every day has its own row on the poster, in the order of the days: the
/// rows are those of the days before day `i`, then the row of day `i` (its
/// day name and date, condition, "high / low" and summary), then the rows of
/// the days after it. With two days, the rows are the first day's row and
/// then the second's.
pub proof fn lemma_poster_rows_each_day(days: Seq<DayView>, i: int)
    requires
        0 <= i < days.len(),
    ensures
        poster_rows(days) == poster_rows(days.take(i)) + poster_row(days[i]) + poster_rows(
            days.skip(i + 1),
        ),
        poster_rows(seq![days[i]]) == poster_row(days[i]),
        days.len() == 2 ==> poster_rows(days) == poster_row(days[0]) + poster_row(days[1]),
{
    let one = seq![days[i]];
    assert(one.drop_last() =~= Seq::<DayView>::empty());
    assert(poster_rows(one.drop_last()) =~= Seq::<char>::empty());
    assert(one.last() == days[i]);
    assert(poster_rows(one) =~= poster_row(days[i]));
    assert(days =~= days.take(i) + one + days.skip(i + 1));
    lemma_poster_rows_concat(days.take(i) + one, days.skip(i + 1));
    lemma_poster_rows_concat(days.take(i), one);
    if days.len() == 2 {
        let a = seq![days[0]];
        let b = seq![days[1]];
        assert(a.drop_last() =~= Seq::<DayView>::empty());
        assert(b.drop_last() =~= Seq::<DayView>::empty());
        assert(days =~= a + b);
        lemma_poster_rows_concat(a, b);
        assert(poster_rows(a) =~= poster_row(days[0]));
        assert(poster_rows(b) =~= poster_row(days[1]));
    }
}

/// The poster page: every placeholder of the template replaced in turn by
/// its value (title, subtitle, font and background URLs, layout sizes, row
/// sizing, column widths, and last the table rows).
pub open spec fn poster_page(
    template: Seq<char>,
    days: Seq<DayView>,
    title: Seq<char>,
    subtitle: Seq<char>,
    font_path: Seq<char>,
    bg_image_path: Seq<char>,
    l: PosterLayout,
    fonts: RowFonts,
) -> Seq<char> {
    let row_height = row_height_of(l, days.len() as int);
    let s = replace(template, "{{TITLE}}"@, escaped(title));
    let s = replace(s, "{{SUBTITLE}}"@, escaped(subtitle));
    let s = replace(s, "{{FONT_PATH}}"@, file_url(font_path));
    let s = replace(s, "{{BG_IMAGE}}"@, file_url(bg_image_path));
    let s = replace(s, "{{WIDTH}}"@, decimal(l.width as nat));
    let s = replace(s, "{{HEIGHT}}"@, decimal(l.height as nat));
    let s = replace(s, "{{PADDING}}"@, decimal(l.padding as nat));
    let s = replace(s, "{{TITLE_SIZE}}"@, decimal(l.title_size as nat));
    let s = replace(s, "{{SUBTITLE_SIZE}}"@, decimal(l.subtitle_size as nat));
    let s = replace(s, "{{HEADER_HEIGHT}}"@, decimal(l.header_height as nat));
    let s = replace(s, "{{TABLE_HEIGHT}}"@, decimal(table_height_of(l) as nat));
    let s = replace(s, "{{ROW_GAP}}"@, decimal(ROW_GAP as nat));
    let s = replace(s, "{{ROW_HEIGHT}}"@, decimal(row_height as nat));
    let s = replace(
        s,
        "{{ROW_PAD_V}}"@,
        decimal(row_pad_v_of(row_height, fonts.row_font_size as int) as nat),
    );
    let s = replace(s, "{{ROW_PAD_H}}"@, decimal(row_pad_h_of(l) as nat));
    let s = replace(s, "{{ROW_FONT_SIZE}}"@, decimal(fonts.row_font_size as nat));
    let s = replace(s, "{{SUMMARY_FONT_SIZE}}"@, decimal(fonts.summary_font_size as nat));
    let s = replace(s, "{{SUMMARY_MAX_LINES}}"@, decimal(fonts.summary_max_lines as nat));
    let s = replace(s, "{{COL_DAY_PCT}}"@, "20"@);
    let s = replace(s, "{{COL_CONDITION_PCT}}"@, "22"@);
    let s = replace(s, "{{COL_TEMPS_PCT}}"@, "18"@);
    let s = replace(s, "{{COL_SUMMARY_PCT}}"@, "40"@);
    replace(s, "{{ROWS}}"@, poster_rows(days))
}

/// The poster inputs whose sizing stays within `u32`.
pub open spec fn poster_in_range(l: PosterLayout, n_days: int, fonts: RowFonts) -> bool {
    &&& metrics_in_range(l, n_days)
    &&& fonts.row_font_size * 2 <= u32::MAX
}

fn fill(s: Vec<char>, placeholder: &str, value: &Vec<char>) -> (r: Vec<char>)
    requires
        placeholder@.len() > 0,
    ensures
        r@ == replace(s@, placeholder@, value@),
{
    let p = chars_of(placeholder);
    replace_chars(&s, &p, value)
}

fn fill_text(s: Vec<char>, placeholder: &str, value: &str) -> (r: Vec<char>)
    requires
        placeholder@.len() > 0,
    ensures
        r@ == replace(s@, placeholder@, value@),
{
    let v = chars_of(value);
    fill(s, placeholder, &v)
}

fn fill_number(s: Vec<char>, placeholder: &str, value: u32) -> (r: Vec<char>)
    requires
        placeholder@.len() > 0,
    ensures
        r@ == replace(s@, placeholder@, decimal(value as nat)),
{
    let mut t = String::new();
    push_decimal(&mut t, value as u64);
    fill_text(s, placeholder, t.as_str())
}

/// The poster page for `days`: the template (read by the caller) with its
/// placeholders filled, at the layout's size, with rows sized from the
/// number of days. `font_path` and `bg_image_path` are the texts of the
/// canonical paths of the font and the background image; `fonts` is the
/// text sizing that the caller derived from the row height.
pub fn render_poster_html(
    days: &[DayForecast],
    title: &str,
    subtitle: &str,
    template: &str,
    font_path: &str,
    bg_image_path: &str,
    layout: &PosterLayout,
    fonts: &RowFonts,
) -> (r: String)
    requires
        poster_in_range(*layout, days@.len() as int, *fonts),
    ensures
        r@ == poster_page(
            template@,
            day_views(days@),
            title@,
            subtitle@,
            font_path@,
            bg_image_path@,
            *layout,
            *fonts,
        ),
{
    proof {
        reveal_strlit("{{TITLE}}");
        reveal_strlit("{{SUBTITLE}}");
        reveal_strlit("{{FONT_PATH}}");
        reveal_strlit("{{BG_IMAGE}}");
        reveal_strlit("{{WIDTH}}");
        reveal_strlit("{{HEIGHT}}");
        reveal_strlit("{{PADDING}}");
        reveal_strlit("{{TITLE_SIZE}}");
        reveal_strlit("{{SUBTITLE_SIZE}}");
        reveal_strlit("{{HEADER_HEIGHT}}");
        reveal_strlit("{{TABLE_HEIGHT}}");
        reveal_strlit("{{ROW_GAP}}");
        reveal_strlit("{{ROW_HEIGHT}}");
        reveal_strlit("{{ROW_PAD_V}}");
        reveal_strlit("{{ROW_PAD_H}}");
        reveal_strlit("{{ROW_FONT_SIZE}}");
        reveal_strlit("{{SUMMARY_FONT_SIZE}}");
        reveal_strlit("{{SUMMARY_MAX_LINES}}");
        reveal_strlit("{{COL_DAY_PCT}}");
        reveal_strlit("{{COL_CONDITION_PCT}}");
        reveal_strlit("{{COL_TEMPS_PCT}}");
        reveal_strlit("{{COL_SUMMARY_PCT}}");
        reveal_strlit("{{ROWS}}");
    }
    let m = poster_metrics(layout, days.len());
    let row_pad_v = m.row_height.saturating_sub(fonts.row_font_size * 2) / 2;
    let rows = poster_rows_html(days);
    let escaped_title = escape(title);
    let escaped_subtitle = escape(subtitle);
    let font_url = to_file_url(font_path);
    let bg_url = to_file_url(bg_image_path);
    let s = chars_of(template);
    let s = fill_text(s, "{{TITLE}}", escaped_title.as_str());
    let s = fill_text(s, "{{SUBTITLE}}", escaped_subtitle.as_str());
    let s = fill_text(s, "{{FONT_PATH}}", font_url.as_str());
    let s = fill_text(s, "{{BG_IMAGE}}", bg_url.as_str());
    let s = fill_number(s, "{{WIDTH}}", layout.width);
    let s = fill_number(s, "{{HEIGHT}}", layout.height);
    let s = fill_number(s, "{{PADDING}}", layout.padding);
    let s = fill_number(s, "{{TITLE_SIZE}}", layout.title_size);
    let s = fill_number(s, "{{SUBTITLE_SIZE}}", layout.subtitle_size);
    let s = fill_number(s, "{{HEADER_HEIGHT}}", layout.header_height);
    let s = fill_number(s, "{{TABLE_HEIGHT}}", m.table_height);
    let s = fill_number(s, "{{ROW_GAP}}", ROW_GAP);
    let s = fill_number(s, "{{ROW_HEIGHT}}", m.row_height);
    let s = fill_number(s, "{{ROW_PAD_V}}", row_pad_v);
    let s = fill_number(s, "{{ROW_PAD_H}}", m.row_pad_h);
    let s = fill_number(s, "{{ROW_FONT_SIZE}}", fonts.row_font_size);
    let s = fill_number(s, "{{SUMMARY_FONT_SIZE}}", fonts.summary_font_size);
    let s = fill_number(s, "{{SUMMARY_MAX_LINES}}", fonts.summary_max_lines);
    let s = fill_text(s, "{{COL_DAY_PCT}}", "20");
    let s = fill_text(s, "{{COL_CONDITION_PCT}}", "22");
    let s = fill_text(s, "{{COL_TEMPS_PCT}}", "18");
    let s = fill_text(s, "{{COL_SUMMARY_PCT}}", "40");
    let s = fill_text(s, "{{ROWS}}", rows.as_str());
    string_of(&s)
}

} // verus!
