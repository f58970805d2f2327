//! The four-line structured header at the top of a proposal document:
//! parsing, validation, and extraction of the feature identifier.

use vstd::prelude::*;

use crate::errors::RfcMergePrError;
use crate::textutil::{has_prefix, is_ws, trim_spec, trim_str, str_equal};
use crate::textutil::{
    lemma_trim_end_keeps_first, lemma_trim_end_no_trailing_ws, lemma_trim_of_trimmed,
    lemma_trim_start_no_leading_ws,
};

verus! {

/// The index of the first newline at or after `from`, or the text's length
/// if none follows.
pub open spec fn line_end(s: Seq<char>, from: int) -> int
    decreases s.len() - from,
{
    if from < 0 || from >= s.len() {
        s.len() as int
    } else if s[from] == '\n' {
        from
    } else {
        line_end(s, from + 1)
    }
}

/// Where the `i`-th line of `s` begins: line 0 begins at 0, and each later
/// line begins one past the newline that ended the line before it.
pub open spec fn line_start(s: Seq<char>, i: nat) -> int
    decreases i,
{
    if i == 0 {
        0
    } else {
        line_end(s, line_start(s, (i - 1) as nat)) + 1
    }
}

/// Whether `s` has an `i`-th line. A trailing newline opens no further
/// line: content must follow it.
pub open spec fn has_line(s: Seq<char>, i: nat) -> bool {
    line_start(s, i) < s.len()
}

/// A line's content, with one trailing carriage return removed so that
/// both newline conventions read the same.
pub open spec fn strip_cr(l: Seq<char>) -> Seq<char> {
    if l.len() > 0 && l.last() == '\r' {
        l.drop_last()
    } else {
        l
    }
}

/// The content of the `i`-th line of `s`.
pub open spec fn spec_line(s: Seq<char>, i: nat) -> Seq<char> {
    strip_cr(s.subrange(line_start(s, i), line_end(s, line_start(s, i))))
}

proof fn lemma_line_end_in_range(s: Seq<char>, from: int)
    requires
        0 <= from <= s.len(),
    ensures
        from <= line_end(s, from) <= s.len(),
    decreases s.len() - from,
{
    if from < s.len() && s[from] != '\n' {
        lemma_line_end_in_range(s, from + 1);
    }
}

proof fn lemma_line_start_in_range(s: Seq<char>, i: nat)
    ensures
        0 <= line_start(s, i) <= s.len() + 1,
    decreases i,
{
    if i > 0 {
        lemma_line_start_in_range(s, (i - 1) as nat);
        let prev = line_start(s, (i - 1) as nat);
        if prev <= s.len() {
            lemma_line_end_in_range(s, prev);
        }
    }
}

/// Once a line start falls past the end of the text, no later line exists.
proof fn lemma_truncated_from(s: Seq<char>, i: nat)
    requires
        i <= 3,
        line_start(s, i) >= s.len(),
    ensures
        !has_line(s, 3),
    decreases 3 - i,
{
    if i < 3 {
        assert(line_end(s, line_start(s, i)) == s.len());
        assert(line_start(s, (i + 1) as nat) == s.len() + 1);
        lemma_truncated_from(s, (i + 1) as nat);
    }
}

/// The required prefix of the feature-name line.
pub open spec fn feature_prefix() -> Seq<char> {
    "- Feature Name: "@
}

/// The required prefix of the start-date line.
pub open spec fn start_date_prefix() -> Seq<char> {
    "- Start Date: "@
}

/// The required prefix of the source-PR line.
pub open spec fn rfc_pr_prefix() -> Seq<char> {
    "- RFC PR: "@
}

/// The required prefix of the target-issue line.
pub open spec fn rust_issue_prefix() -> Seq<char> {
    "- Rust Issue: "@
}

/// The required prefix of the `i`-th header line.
pub open spec fn line_prefix(i: int) -> Seq<char> {
    if i == 0 {
        feature_prefix()
    } else if i == 1 {
        start_date_prefix()
    } else if i == 2 {
        rfc_pr_prefix()
    } else {
        rust_issue_prefix()
    }
}

/// The four ordered header lines. Fields are parsed together or not at
/// all: `parse_header` never builds a partial header.
#[derive(Debug)]
pub struct Header {
    pub feature_name: String,
    pub start_date: String,
    pub rfc_pr: String,
    pub rust_issue: String,
}

impl Header {
    /// The `i`-th stored line.
    pub open spec fn line_view(&self, i: int) -> Seq<char> {
        if i == 0 {
            self.feature_name@
        } else if i == 1 {
            self.start_date@
        } else if i == 2 {
            self.rfc_pr@
        } else {
            self.rust_issue@
        }
    }

    /// Each stored line begins with its required prefix.
    pub open spec fn wf(&self) -> bool {
        forall|i: int| 0 <= i < 4 ==> line_prefix(i).is_prefix_of(self.line_view(i))
    }

    /// The feature identifier from the feature-name line, or `None` for
    /// "no feature gate". Fails only when the stored line does not begin
    /// with the feature-name prefix, which a parsed header always does.
    pub fn feature_name(&self) -> (r: Result<Option<String>, RfcMergePrError>)
        ensures
            match r {
                Ok(opt) => {
                    &&& feature_prefix().is_prefix_of(self.feature_name@)
                    &&& match opt {
                        Some(id) => spec_feature_ident(self.feature_name@) == Some(id@),
                        None => spec_feature_ident(self.feature_name@) is None,
                    }
                },
                Err(e) => {
                    &&& !feature_prefix().is_prefix_of(self.feature_name@)
                    &&& e matches RfcMergePrError::MalformedHeaderLine {
                        line_index,
                        expected,
                        actual,
                    }
                    &&& line_index == 0usize
                    &&& expected@ == feature_prefix()
                    &&& actual@ == self.feature_name@
                },
            },
    {
        let line = self.feature_name.as_str();
        if !has_prefix(line, "- Feature Name: ") {
            return Err(RfcMergePrError::MalformedHeaderLine {
                line_index: 0,
                expected: String::from_str("- Feature Name: "),
                actual: self.feature_name.clone(),
            });
        }
        let plen = "- Feature Name: ".unicode_len();
        let n = line.unicode_len();
        let rest = line.substring_char(plen, n);
        proof {
            assert(rest@ =~= line@.skip(feature_prefix().len() as int));
        }
        let t1 = trim_str(rest);
        let t1len = t1.unicode_len();
        let a = if t1len > 0 && t1.get_char(0) == '`' {
            let sub = t1.substring_char(1, t1len);
            proof {
                assert(sub@ =~= t1@.drop_first());
            }
            sub
        } else {
            t1
        };
        let alen = a.unicode_len();
        let b = if alen > 0 && a.get_char(alen - 1) == '`' {
            let sub = a.substring_char(0, alen - 1);
            proof {
                assert(sub@ =~= a@.drop_last());
            }
            sub
        } else {
            a
        };
        let t2 = trim_str(b);
        if t2.unicode_len() == 0 || str_equal(t2, "N/A") {
            Ok(None)
        } else {
            Ok(Some(t2.to_owned()))
        }
    }
}

/// The feature identifier encoded after the feature-name prefix: the
/// content is trimmed, one layer of backtick quoting is removed, and the
/// result is trimmed again; the literal `N/A` and emptiness both mean
/// "no feature".
pub open spec fn feature_ident_of_content(c: Seq<char>) -> Option<Seq<char>> {
    let t1 = trim_spec(c);
    let a = if t1.len() > 0 && t1[0] == '`' {
        t1.drop_first()
    } else {
        t1
    };
    let b = if a.len() > 0 && a.last() == '`' {
        a.drop_last()
    } else {
        a
    };
    let t2 = trim_spec(b);
    if t2 == "N/A"@ || t2.len() == 0 {
        None
    } else {
        Some(t2)
    }
}

/// The feature identifier of a whole feature-name line.
pub open spec fn spec_feature_ident(line: Seq<char>) -> Option<Seq<char>>
    recommends
        feature_prefix().is_prefix_of(line),
{
    feature_ident_of_content(line.skip(feature_prefix().len() as int))
}

/// Whether `s` has at least the four lines a header needs.
pub open spec fn has_four_lines(s: Seq<char>) -> bool {
    has_line(s, 3)
}

/// Whether the four header lines of `s` all begin with their required
/// prefixes.
pub open spec fn lines_conform(s: Seq<char>) -> bool {
    forall|i: int| 0 <= i < 4 ==> line_prefix(i).is_prefix_of(spec_line(s, i as nat))
}

/// Whether `parse_header` accepts `s`.
pub open spec fn parses(s: Seq<char>) -> bool {
    has_four_lines(s) && lines_conform(s)
}

/// `h` holds exactly the first four lines of `s`.
pub open spec fn is_parsed_header(s: Seq<char>, h: &Header) -> bool {
    forall|i: int| 0 <= i < 4 ==> h.line_view(i) == spec_line(s, i as nat)
}

/// The error `parse_header` owes for `s`: truncation when a fourth line is
/// missing, else the first mis-prefixed line with its expected prefix and
/// actual content.
pub open spec fn parse_error_matches(s: Seq<char>, e: &RfcMergePrError) -> bool {
    match e {
        RfcMergePrError::TruncatedDocument => !has_four_lines(s),
        RfcMergePrError::MalformedHeaderLine { line_index, expected, actual } => {
            &&& has_four_lines(s)
            &&& 0 <= *line_index < 4
            &&& expected@ == line_prefix(*line_index as int)
            &&& actual@ == spec_line(s, *line_index as nat)
            &&& !line_prefix(*line_index as int).is_prefix_of(spec_line(s, *line_index as nat))
            &&& forall|j: int|
                0 <= j < *line_index ==> line_prefix(j).is_prefix_of(spec_line(s, j as nat))
        },
        _ => false,
    }
}

/// The feature-name line that reconstruction writes for identifier `id`.
pub open spec fn rebuilt_feature_line(id: Seq<char>) -> Seq<char> {
    feature_prefix() + seq!['`'] + id + seq!['`']
}

/// Normalization is stable: re-extracting the identifier from a rebuilt
/// backtick-quoted feature line gives the identifier back.
pub proof fn lemma_feature_ident_round_trip(c: Seq<char>, id: Seq<char>)
    requires
        feature_ident_of_content(c) == Some(id),
    ensures
        feature_ident_of_content(seq!['`'] + id + seq!['`']) == Some(id),
{
    let t1 = trim_spec(c);
    let a = if t1.len() > 0 && t1[0] == '`' {
        t1.drop_first()
    } else {
        t1
    };
    let b = if a.len() > 0 && a.last() == '`' {
        a.drop_last()
    } else {
        a
    };
    let t2 = trim_spec(b);
    assert(t2 == id);
    assert(id != "N/A"@ && id.len() > 0);
    lemma_trim_end_no_trailing_ws(crate::textutil::trim_start_spec(b));
    lemma_trim_end_keeps_first(crate::textutil::trim_start_spec(b));
    lemma_trim_start_no_leading_ws(b);
    assert(!is_ws(id[0]));
    assert(!is_ws(id.last()));

    let c2 = seq!['`'] + id + seq!['`'];
    assert(c2.len() == id.len() + 2);
    assert(c2[0] == '`');
    assert(c2.last() == '`');
    lemma_trim_of_trimmed(c2);
    let a2 = c2.drop_first();
    assert(a2 =~= id + seq!['`']);
    assert(a2.last() == '`');
    let b2 = a2.drop_last();
    assert(b2 =~= id);
    lemma_trim_of_trimmed(id);
    assert(trim_spec(b2) == id);
    assert(feature_ident_of_content(c2) == Some(id));
}

/// Law: a parsed header round-trips. The start-date and the two reference
/// lines are carried verbatim, and rebuilding the feature line from the
/// extracted identifier yields content with the same identifier again; a
/// header with no feature contributes no feature line, so the whole
/// reconstruction is faithful up to the normalization of the feature line.
pub proof fn lemma_header_round_trip(text: Seq<char>, h: &Header)
    requires
        parses(text),
        is_parsed_header(text, h),
    ensures
        h.start_date@ == spec_line(text, 1),
        h.rfc_pr@ == spec_line(text, 2),
        h.rust_issue@ == spec_line(text, 3),
        match spec_feature_ident(h.feature_name@) {
            Some(id) => spec_feature_ident(rebuilt_feature_line(id)) == Some(id),
            None => true,
        },
{
    assert(h.line_view(1) == spec_line(text, 1));
    assert(h.line_view(2) == spec_line(text, 2));
    assert(h.line_view(3) == spec_line(text, 3));
    match spec_feature_ident(h.feature_name@) {
        Some(id) => {
            lemma_feature_ident_round_trip(
                h.feature_name@.skip(feature_prefix().len() as int),
                id,
            );
            assert(rebuilt_feature_line(id).skip(feature_prefix().len() as int) =~= seq!['`']
                + id + seq!['`']);
        },
        None => {},
    }
}

/// Finds the end of the line that begins at `from`.
fn find_line_end(s: &str, from: usize) -> (end: usize)
    requires
        from <= s@.len(),
    ensures
        end == line_end(s@, from as int),
        from <= end <= s@.len(),
{
    let n = s.unicode_len();
    let mut i = from;
    while i < n && s.get_char(i) != '\n'
        invariant
            from <= i <= n,
            n == s@.len(),
            line_end(s@, from as int) == line_end(s@, i as int),
        decreases n - i,
    {
        proof {
            assert(line_end(s@, i as int) == line_end(s@, i + 1));
        }
        i = i + 1;
    }
    i
}

/// Copies the line `[start, end)` of `s`, dropping one trailing carriage
/// return.
fn extract_line(s: &str, start: usize, end: usize) -> (r: String)
    requires
        start <= end <= s@.len(),
    ensures
        r@ == strip_cr(s@.subrange(start as int, end as int)),
{
    if end > start && s.get_char(end - 1) == '\r' {
        let sub = s.substring_char(start, end - 1);
        proof {
            assert(s@.subrange(start as int, end as int).drop_last() =~= s@.subrange(
                start as int,
                end - 1,
            ));
        }
        sub.to_owned()
    } else {
        let sub = s.substring_char(start, end);
        sub.to_owned()
    }
}

/// Parses the four-line header block out of raw document text.
///
/// Succeeds exactly when the text has at least four lines and each begins
/// with its required prefix; the returned header holds those lines. Fails
/// with `TruncatedDocument` when a fourth line is missing, and with
/// `MalformedHeaderLine` naming the first violated prefix otherwise.
pub fn parse_header(text: &str) -> (r: Result<Header, RfcMergePrError>)
    ensures
        match r {
            Ok(h) => parses(text@) && is_parsed_header(text@, &h) && h.wf(),
            Err(e) => !parses(text@) && parse_error_matches(text@, &e),
        },
{
    let len = text.unicode_len();
    if len == 0 {
        proof {
            lemma_truncated_from(text@, 0);
        }
        return Err(RfcMergePrError::TruncatedDocument);
    }
    let e0 = find_line_end(text, 0);
    proof {
        assert(line_start(text@, 0) == 0);
        assert(line_start(text@, 1) == e0 + 1);
    }
    if e0 == len {
        proof {
            lemma_truncated_from(text@, 1);
        }
        return Err(RfcMergePrError::TruncatedDocument);
    }
    let s1 = e0 + 1;
    if s1 == len {
        proof {
            lemma_truncated_from(text@, 1);
        }
        return Err(RfcMergePrError::TruncatedDocument);
    }
    let e1 = find_line_end(text, s1);
    proof {
        assert(line_start(text@, 2) == e1 + 1);
    }
    if e1 == len {
        proof {
            lemma_truncated_from(text@, 2);
        }
        return Err(RfcMergePrError::TruncatedDocument);
    }
    let s2 = e1 + 1;
    if s2 == len {
        proof {
            lemma_truncated_from(text@, 2);
        }
        return Err(RfcMergePrError::TruncatedDocument);
    }
    let e2 = find_line_end(text, s2);
    proof {
        assert(line_start(text@, 3) == e2 + 1);
    }
    if e2 == len {
        proof {
            lemma_truncated_from(text@, 3);
        }
        return Err(RfcMergePrError::TruncatedDocument);
    }
    let s3 = e2 + 1;
    if s3 == len {
        proof {
            lemma_truncated_from(text@, 3);
        }
        return Err(RfcMergePrError::TruncatedDocument);
    }
    let e3 = find_line_end(text, s3);
    proof {
        assert(has_line(text@, 3));
        assert(spec_line(text@, 0) == strip_cr(text@.subrange(0, e0 as int)));
        assert(spec_line(text@, 1) == strip_cr(text@.subrange(s1 as int, e1 as int)));
        assert(spec_line(text@, 2) == strip_cr(text@.subrange(s2 as int, e2 as int)));
        assert(spec_line(text@, 3) == strip_cr(text@.subrange(s3 as int, e3 as int)));
    }
    let l0 = extract_line(text, 0, e0);
    let l1 = extract_line(text, s1, e1);
    let l2 = extract_line(text, s2, e2);
    let l3 = extract_line(text, s3, e3);
    if !has_prefix(l0.as_str(), "- Feature Name: ") {
        proof {
            assert(line_prefix(0) == feature_prefix());
            assert(!line_prefix(0).is_prefix_of(spec_line(text@, 0)));
            assert(!lines_conform(text@));
        }
        return Err(RfcMergePrError::MalformedHeaderLine {
            line_index: 0,
            expected: String::from_str("- Feature Name: "),
            actual: l0,
        });
    }
    if !has_prefix(l1.as_str(), "- Start Date: ") {
        proof {
            assert(line_prefix(1) == start_date_prefix());
            assert(!line_prefix(1).is_prefix_of(spec_line(text@, 1)));
            assert(!lines_conform(text@));
            assert forall|j: int| 0 <= j < 1 implies line_prefix(j).is_prefix_of(
                spec_line(text@, j as nat),
            ) by {
                assert(line_prefix(0) == feature_prefix());
            }
        }
        return Err(RfcMergePrError::MalformedHeaderLine {
            line_index: 1,
            expected: String::from_str("- Start Date: "),
            actual: l1,
        });
    }
    if !has_prefix(l2.as_str(), "- RFC PR: ") {
        proof {
            assert(line_prefix(2) == rfc_pr_prefix());
            assert(!line_prefix(2).is_prefix_of(spec_line(text@, 2)));
            assert(!lines_conform(text@));
            assert forall|j: int| 0 <= j < 2 implies line_prefix(j).is_prefix_of(
                spec_line(text@, j as nat),
            ) by {
                assert(line_prefix(0) == feature_prefix());
                assert(line_prefix(1) == start_date_prefix());
            }
        }
        return Err(RfcMergePrError::MalformedHeaderLine {
            line_index: 2,
            expected: String::from_str("- RFC PR: "),
            actual: l2,
        });
    }
    if !has_prefix(l3.as_str(), "- Rust Issue: ") {
        proof {
            assert(line_prefix(3) == rust_issue_prefix());
            assert(!line_prefix(3).is_prefix_of(spec_line(text@, 3)));
            assert(!lines_conform(text@));
            assert forall|j: int| 0 <= j < 3 implies line_prefix(j).is_prefix_of(
                spec_line(text@, j as nat),
            ) by {
                assert(line_prefix(0) == feature_prefix());
                assert(line_prefix(1) == start_date_prefix());
                assert(line_prefix(2) == rfc_pr_prefix());
            }
        }
        return Err(RfcMergePrError::MalformedHeaderLine {
            line_index: 3,
            expected: String::from_str("- Rust Issue: "),
            actual: l3,
        });
    }
    let h = Header { feature_name: l0, start_date: l1, rfc_pr: l2, rust_issue: l3 };
    proof {
        assert forall|i: int| 0 <= i < 4 implies line_prefix(i).is_prefix_of(
            spec_line(text@, i as nat),
        ) && h.line_view(i) == spec_line(text@, i as nat) by {
            if i == 0 {
                assert(line_prefix(0) == feature_prefix());
                assert(h.line_view(0) == l0@);
            } else if i == 1 {
                assert(line_prefix(1) == start_date_prefix());
                assert(h.line_view(1) == l1@);
            } else if i == 2 {
                assert(line_prefix(2) == rfc_pr_prefix());
                assert(h.line_view(2) == l2@);
            } else {
                assert(line_prefix(3) == rust_issue_prefix());
                assert(h.line_view(3) == l3@);
            }
        }
        assert(h.wf());
    }
    Ok(h)
}

} // verus!
