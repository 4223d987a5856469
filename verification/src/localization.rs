//! The language of the status menu: detection of a Chinese primary system
//! language and the menu labels in either language.
use vstd::prelude::*;
use crate::text::{
    chars_of, find_char_from, find_from, lemma_find_from_bounds, lemma_find_from_first,
    lemma_find_from_none, lemma_find_from_shift, range_starts_with_zh, starts_with_zh, trim_by,
    trim_end_by, trim_end_range, trim_range, CharClass,
};

verus! {

/// The text of a line of the `AppleLanguages` list once it is cleaned: white space
/// trimmed, trailing commas dropped, quotes removed at both ends, white space
/// trimmed again.
pub open spec fn cleaned_line(line: Seq<char>) -> Seq<char> {
    trim_by(
        trim_by(trim_end_by(trim_by(line, CharClass::WhiteSpace), CharClass::Comma), CharClass::Quote),
        CharClass::WhiteSpace,
    )
}

/// A cleaned line names a language unless it is empty or a bracket of the list.
pub open spec fn is_language_line(t: Seq<char>) -> bool {
    t.len() > 0 && t != seq!['('] && t != seq![')']
}

/// End of the line that starts at `start`: the next line feed, or the end of text.
pub open spec fn line_end(s: Seq<char>, start: int) -> int {
    match find_from(s, '\n', start) {
        Some(e) => e,
        None => s.len() as int,
    }
}

/// The first cleaned line, from the line that starts at `start` on, that names a language.
pub open spec fn first_language_from(s: Seq<char>, start: int) -> Option<Seq<char>>
    decreases s.len() - start,
{
    if start < 0 || start > s.len() {
        None
    } else {
        let end = line_end(s, start);
        proof {
            lemma_find_from_bounds(s, '\n', start);
        }
        let t = cleaned_line(s.subrange(start, end));
        if is_language_line(t) {
            Some(t)
        } else if end < s.len() {
            first_language_from(s, end + 1)
        } else {
            None
        }
    }
}

/// The text between the first two double quotes, if there are two.
pub open spec fn quoted_primary(s: Seq<char>) -> Option<Seq<char>> {
    match find_from(s, '"', 0) {
        Some(i) => match find_from(s, '"', i + 1) {
            Some(j) => Some(s.subrange(i + 1, j)),
            None => None,
        },
        None => None,
    }
}

/// The primary language of an `AppleLanguages` listing: the first quoted entry,
/// or, where the text holds no two quotes, the first line that names a language.
pub open spec fn primary_language(s: Seq<char>) -> Option<Seq<char>> {
    match quoted_primary(s) {
        Some(q) => Some(q),
        None => first_language_from(s, 0),
    }
}

pub open spec fn primary_language_is_chinese(s: Seq<char>) -> bool {
    match primary_language(s) {
        Some(l) => starts_with_zh(l),
        None => false,
    }
}

/// The lines of `t` from `k` on are the lines of `p + t` from `p.len() + k` on.
proof fn lemma_first_language_shift(p: Seq<char>, t: Seq<char>, k: int)
    requires
        0 <= k,
    ensures
        first_language_from(p + t, p.len() + k) == first_language_from(t, k),
    decreases t.len() - k,
{
    let s = p + t;
    let start = p.len() + k;
    if k <= t.len() {
        lemma_find_from_shift(p, t, '\n', k);
        lemma_find_from_bounds(t, '\n', k);
        lemma_find_from_bounds(s, '\n', start);
        let end_t = line_end(t, k);
        assert(line_end(s, start) == end_t + p.len());
        assert(s.subrange(start, end_t + p.len()) =~= t.subrange(k, end_t));
        if end_t < t.len() {
            lemma_first_language_shift(p, t, end_t + 1);
            assert(p.len() + (end_t + 1) == end_t + p.len() + 1);
        }
    }
}

/// Law: the first quoted entry decides. In a text `a"q"b` where neither `a` nor
/// `q` holds a double quote, `q` is the primary language, and the answer is
/// whether `q` begins with "zh" in either letter case; nothing else in the text
/// is consulted.
pub proof fn lemma_first_quoted_entry_decides(a: Seq<char>, q: Seq<char>, b: Seq<char>)
    requires
        !a.contains('"'),
        !q.contains('"'),
    ensures
        quoted_primary(a + seq!['"'] + q + seq!['"'] + b) == Some(q),
        primary_language(a + seq!['"'] + q + seq!['"'] + b) == Some(q),
        primary_language_is_chinese(a + seq!['"'] + q + seq!['"'] + b) == starts_with_zh(q),
{
    let s = a + seq!['"'] + q + seq!['"'] + b;
    let i = a.len() as int;
    let j = (a.len() + 1 + q.len()) as int;
    assert(s[i] == '"');
    assert forall|k: int| 0 <= k < i implies s[k] != '"' by {
        assert(s[k] == a[k]);
    }
    lemma_find_from_first(s, '"', 0, i);
    assert(s[j] == '"');
    assert forall|k: int| i + 1 <= k < j implies s[k] != '"' by {
        assert(s[k] == q[k - i - 1]);
    }
    lemma_find_from_first(s, '"', i + 1, j);
    assert(s.subrange(i + 1, j) =~= q);
}

/// Texts without double quotes are read line by line.
proof fn lemma_unquoted_text_reads_lines(s: Seq<char>)
    requires
        !s.contains('"'),
    ensures
        primary_language(s) == first_language_from(s, 0),
{
    lemma_find_from_none(s, '"', 0);
}

/// Law: in a text without double quotes, a first line that names a language
/// decides: the answer is whether that line, cleaned, begins with "zh" in either
/// letter case, whatever the lines after it say.
pub proof fn lemma_first_language_line_decides(l: Seq<char>, rest: Seq<char>)
    requires
        !l.contains('"'),
        !l.contains('\n'),
        !rest.contains('"'),
        is_language_line(cleaned_line(l)),
    ensures
        primary_language_is_chinese(l + seq!['\n'] + rest) == starts_with_zh(cleaned_line(l)),
        primary_language_is_chinese(l) == starts_with_zh(cleaned_line(l)),
{
    let s = l + seq!['\n'] + rest;
    assert(!s.contains('"')) by {
        if s.contains('"') {
            let k = choose|k: int| 0 <= k < s.len() && s[k] == '"';
            if k < l.len() {
                assert(s[k] == l[k]);
            } else if k > l.len() {
                assert(s[k] == rest[k - l.len() - 1]);
            }
        }
    }
    lemma_unquoted_text_reads_lines(s);
    assert forall|k: int| 0 <= k < l.len() implies s[k] != '\n' by {
        assert(s[k] == l[k]);
    }
    assert(s[l.len() as int] == '\n');
    lemma_find_from_first(s, '\n', 0, l.len() as int);
    assert(s.subrange(0, l.len() as int) =~= l);
    lemma_unquoted_text_reads_lines(l);
    lemma_find_from_none(l, '\n', 0);
    assert(l.subrange(0, l.len() as int) =~= l);
}

/// Law: in a text without double quotes, a first line that names no language
/// (blank, or a bracket of the list) is skipped: the answer is that for the
/// lines after it, and a lone such line gives false.
pub proof fn lemma_blank_first_line_is_skipped(l: Seq<char>, rest: Seq<char>)
    requires
        !l.contains('"'),
        !l.contains('\n'),
        !rest.contains('"'),
        !is_language_line(cleaned_line(l)),
    ensures
        primary_language_is_chinese(l + seq!['\n'] + rest) == primary_language_is_chinese(rest),
        !primary_language_is_chinese(l),
{
    let p = l + seq!['\n'];
    let s = p + rest;
    assert(s =~= l + seq!['\n'] + rest);
    assert(!s.contains('"')) by {
        if s.contains('"') {
            let k = choose|k: int| 0 <= k < s.len() && s[k] == '"';
            if k < l.len() {
                assert(s[k] == l[k]);
            } else if k > l.len() {
                assert(s[k] == rest[k - l.len() - 1]);
            }
        }
    }
    lemma_unquoted_text_reads_lines(s);
    lemma_unquoted_text_reads_lines(rest);
    assert forall|k: int| 0 <= k < l.len() implies s[k] != '\n' by {
        assert(s[k] == l[k]);
    }
    assert(s[l.len() as int] == '\n');
    lemma_find_from_first(s, '\n', 0, l.len() as int);
    assert(s.subrange(0, l.len() as int) =~= l);
    lemma_first_language_shift(p, rest, 0);
    assert(p.len() + 0 == l.len() + 1);
    lemma_unquoted_text_reads_lines(l);
    lemma_find_from_none(l, '\n', 0);
    assert(l.subrange(0, l.len() as int) =~= l);
}

/// The cleaned form of the line `v[start..end]`, as a range of `v`.
fn clean_line_range(v: &Vec<char>, start: usize, end: usize) -> (r: (usize, usize))
    requires
        start <= end <= v.len(),
    ensures
        start <= r.0 <= r.1 <= end,
        v@.subrange(r.0 as int, r.1 as int) == cleaned_line(v@.subrange(start as int, end as int)),
{
    let ghost line = v@.subrange(start as int, end as int);
    let (a, b) = trim_range(v, start, end, CharClass::WhiteSpace);
    let b2 = trim_end_range(v, a, b, CharClass::Comma);
    let (c, d) = trim_range(v, a, b2, CharClass::Quote);
    let (e, f) = trim_range(v, c, d, CharClass::WhiteSpace);
    (e, f)
}

/// Whether the primary language in the output of `defaults read -g AppleLanguages`
/// is Chinese. Only the first language counts: a list that names Chinese second
/// does not. Letter case is ignored.
pub fn apple_languages_primary_is_chinese(languages: &str) -> (r: bool)
    ensures
        r == primary_language_is_chinese(languages@),
        forall|a: Seq<char>, q: Seq<char>, b: Seq<char>|
            languages@ == #[trigger] (a + seq!['"'] + q + seq!['"'] + b) && !a.contains('"')
                && !q.contains('"') ==> r == starts_with_zh(q),
        forall|l: Seq<char>, rest: Seq<char>|
            languages@ == #[trigger] (l + seq!['\n'] + rest) && !l.contains('"') && !l.contains(
                '\n',
            ) && !rest.contains('"') && is_language_line(cleaned_line(l)) ==> r == starts_with_zh(
                cleaned_line(l),
            ),
        !languages@.contains('"') && !languages@.contains('\n') ==> r == (is_language_line(
            cleaned_line(languages@),
        ) && starts_with_zh(cleaned_line(languages@))),
{
    let r = primary_language_in(languages);
    assert forall|l: Seq<char>, rest: Seq<char>|
        languages@ == #[trigger] (l + seq!['\n'] + rest) && !l.contains('"') && !l.contains('\n')
            && !rest.contains('"') && is_language_line(cleaned_line(l)) implies r == starts_with_zh(
        cleaned_line(l),
    ) by {
        lemma_first_language_line_decides(l, rest);
    }
    proof {
        if !languages@.contains('"') && !languages@.contains('\n') {
            if is_language_line(cleaned_line(languages@)) {
                lemma_first_language_line_decides(languages@, Seq::empty());
            } else {
                lemma_blank_first_line_is_skipped(languages@, Seq::empty());
            }
        }
    }
    assert forall|a: Seq<char>, q: Seq<char>, b: Seq<char>|
        languages@ == #[trigger] (a + seq!['"'] + q + seq!['"'] + b) && !a.contains('"')
            && !q.contains('"') implies r == starts_with_zh(q) by {
        lemma_first_quoted_entry_decides(a, q, b);
    }
    r
}

/// Whether the primary language of `languages` is Chinese (see
/// `apple_languages_primary_is_chinese`).
fn primary_language_in(languages: &str) -> (r: bool)
    ensures
        r == primary_language_is_chinese(languages@),
{
    let v = chars_of(languages);
    let ghost s = v@;
    if let Some(start) = find_char_from(&v, '"', 0) {
        proof {
            lemma_find_from_bounds(s, '"', 0);
        }
        if let Some(end) = find_char_from(&v, '"', start + 1) {
            proof {
                lemma_find_from_bounds(s, '"', start + 1);
            }
            return range_starts_with_zh(&v, start + 1, end);
        }
    }
    assert(quoted_primary(s) is None);
    let mut start: usize = 0;
    loop
        invariant
            v@ == s,
            s == languages@,
            start <= s.len(),
            first_language_from(s, start as int) == first_language_from(s, 0),
            quoted_primary(s) is None,
        decreases s.len() - start,
    {
        proof {
            lemma_find_from_bounds(s, '\n', start as int);
        }
        let end = match find_char_from(&v, '\n', start) {
            Some(e) => e,
            None => v.len(),
        };
        assert(end as int == line_end(s, start as int));
        let (lo, hi) = clean_line_range(&v, start, end);
        let ghost t = s.subrange(lo as int, hi as int);
        let is_bracket = hi - lo == 1 && (v[lo] == '(' || v[lo] == ')');
        assert(is_bracket <==> (t =~= seq!['('] || t =~= seq![')'])) by {
            if hi - lo == 1 {
                assert(t[0] == v@[lo as int]);
            }
        }
        assert(first_language_from(s, start as int) == if is_language_line(t) {
            Some(t)
        } else if end < s.len() {
            first_language_from(s, end + 1)
        } else {
            None
        });
        if hi > lo && !is_bracket {
            return range_starts_with_zh(&v, lo, hi);
        }
        if end >= v.len() {
            return false;
        }
        start = end + 1;
    }
}

proof fn lemma_find_from_extends(s: Seq<char>, t: Seq<char>, c: char, from: int)
    requires
        find_from(s, c, from) is Some,
    ensures
        find_from(s + t, c, from) == find_from(s, c, from),
    decreases s.len() - from,
{
    if 0 <= from < s.len() && s[from] != c {
        assert((s + t)[from] == s[from]);
        lemma_find_from_extends(s, t, c, from + 1);
    } else if 0 <= from < s.len() {
        assert((s + t)[from] == s[from]);
    }
}

/// Law: only the primary language counts. Once the text holds its first quoted
/// entry, whatever follows (further languages, or anything else) changes
/// neither the primary language nor the answer.
pub proof fn lemma_later_entries_do_not_matter(s: Seq<char>, t: Seq<char>)
    requires
        quoted_primary(s) is Some,
    ensures
        primary_language(s + t) == primary_language(s),
        primary_language_is_chinese(s + t) == primary_language_is_chinese(s),
{
    let i = find_from(s, '"', 0)->Some_0;
    lemma_find_from_extends(s, t, '"', 0);
    lemma_find_from_extends(s, t, '"', i + 1);
    let j = find_from(s, '"', i + 1)->Some_0;
    lemma_find_from_bounds(s, '"', i + 1);
    lemma_find_from_bounds(s, '"', 0);
    assert((s + t).subrange(i + 1, j) =~= s.subrange(i + 1, j));
}

/// Whether a locale value such as `LANG` names Chinese: it begins with "zh" in
/// either letter case.
pub fn locale_value_is_chinese(value: &str) -> (r: bool)
    ensures
        r == starts_with_zh(value@),
{
    let v = chars_of(value);
    range_starts_with_zh(&v, 0, v.len())
}

/// Whether any of the locale values (`LANG`, `LC_ALL`, `LC_MESSAGES`, those that
/// are set) names Chinese.
pub fn locale_values_are_chinese(values: &Vec<String>) -> (r: bool)
    ensures
        r == exists|i: int| 0 <= i < values.len() && #[trigger] starts_with_zh(values@[i]@),
{
    let mut i: usize = 0;
    while i < values.len()
        invariant
            i <= values.len(),
            forall|j: int| 0 <= j < i ==> !#[trigger] starts_with_zh(values@[j]@),
        decreases values.len() - i,
    {
        if locale_value_is_chinese(values[i].as_str()) {
            return true;
        }
        i = i + 1;
    }
    false
}

/// The texts of the status menu.
pub struct TrayLabels {
    pub show: &'static str,
    pub schedule_title: &'static str,
    pub schedule_off: &'static str,
    pub interval_3: &'static str,
    pub data_time_title: &'static str,
    pub data_time_empty: &'static str,
    pub autostart: &'static str,
    pub ttc_website: &'static str,
    pub quit: &'static str,
}

/// The status menu texts in Traditional Chinese.
pub open spec fn chinese_labels(l: TrayLabels) -> bool {
    &&& l.show@ == "開啟MacTTC"@
    &&& l.schedule_title@ == "下載排程"@
    &&& l.schedule_off@ == "關閉排程"@
    &&& l.interval_3@ == "每 3 小時"@
    &&& l.data_time_title@ == "目前資料時間"@
    &&& l.data_time_empty@ == "尚無成功下載紀錄"@
    &&& l.autostart@ == "開機啟動"@
    &&& l.ttc_website@ == "前往TTC網站"@
    &&& l.quit@ == "退出"@
}

/// The status menu texts in English.
pub open spec fn english_labels(l: TrayLabels) -> bool {
    &&& l.show@ == "Open MacTTC"@
    &&& l.schedule_title@ == "Download Schedule"@
    &&& l.schedule_off@ == "Turn Schedule Off"@
    &&& l.interval_3@ == "Every 3 hours"@
    &&& l.data_time_title@ == "Current Data Time"@
    &&& l.data_time_empty@ == "No successful download yet"@
    &&& l.autostart@ == "Launch at Login"@
    &&& l.ttc_website@ == "Go to TTC Website"@
    &&& l.quit@ == "Quit"@
}

/// The status menu texts: Traditional Chinese where the primary system
/// language is Chinese, English for every other language.
pub fn tray_labels(system_language_is_chinese: bool) -> (r: TrayLabels)
    ensures
        system_language_is_chinese ==> chinese_labels(r),
        !system_language_is_chinese ==> english_labels(r),
{
    if system_language_is_chinese {
        TrayLabels {
            show: "開啟MacTTC",
            schedule_title: "下載排程",
            schedule_off: "關閉排程",
            interval_3: "每 3 小時",
            data_time_title: "目前資料時間",
            data_time_empty: "尚無成功下載紀錄",
            autostart: "開機啟動",
            ttc_website: "前往TTC網站",
            quit: "退出",
        }
    } else {
        TrayLabels {
            show: "Open MacTTC",
            schedule_title: "Download Schedule",
            schedule_off: "Turn Schedule Off",
            interval_3: "Every 3 hours",
            data_time_title: "Current Data Time",
            data_time_empty: "No successful download yet",
            autostart: "Launch at Login",
            ttc_website: "Go to TTC Website",
            quit: "Quit",
        }
    }
}

} // verus!
