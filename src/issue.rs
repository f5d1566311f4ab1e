//! Issues of the tracker and the branch names derived from them.
use vstd::prelude::*;

use crate::normalize::{field_list, normalize_field_names};
use crate::text::{
    chars_of, decimal, is_alnum, is_ascii_alnum, push_char, push_decimal, replace_all, replaced,
    starts_with, str_eq,
};
use crate::youtrack::{Project, User};

verus! {

/// `s` without its leading characters that are not ASCII letters or digits.
pub open spec fn trim_front(s: Seq<char>) -> Seq<char>
    decreases s.len(),
{
    if s.len() > 0 && !is_alnum(s[0]) {
        trim_front(s.drop_first())
    } else {
        s
    }
}

/// `s` without its trailing characters that are not ASCII letters or digits.
pub open spec fn trim_back(s: Seq<char>) -> Seq<char>
    decreases s.len(),
{
    if s.len() > 0 && !is_alnum(s.last()) {
        trim_back(s.drop_last())
    } else {
        s
    }
}

/// Keeps ASCII letters and digits, and turns each run of other characters
/// into one `-`.
pub open spec fn dashed(s: Seq<char>) -> Seq<char>
    decreases s.len(),
{
    if s.len() == 0 {
        Seq::empty()
    } else {
        let prev = dashed(s.drop_last());
        let c = s.last();
        if is_alnum(c) {
            prev.push(c)
        } else if prev.len() > 0 && prev.last() == '-' {
            prev
        } else {
            prev.push('-')
        }
    }
}

/// The branch-name form of a free text: trimmed of punctuation at both ends,
/// with inner runs of punctuation and spaces turned into single dashes.
pub open spec fn branch_slug(s: Seq<char>) -> Seq<char> {
    dashed(trim_back(trim_front(s)))
}

proof fn lemma_trim_front_suffix(s: Seq<char>, i: int)
    requires
        0 <= i <= s.len(),
        forall|k: int| 0 <= k < i ==> !is_alnum(s[k]),
    ensures
        trim_front(s) == trim_front(s.subrange(i, s.len() as int)),
    decreases i,
{
    if i > 0 {
        assert(s.drop_first() =~= s.subrange(1, s.len() as int));
        lemma_trim_front_suffix(s.drop_first(), i - 1);
        assert(s.drop_first().subrange(i - 1, s.drop_first().len() as int) =~= s.subrange(
            i,
            s.len() as int,
        ));
    } else {
        assert(s.subrange(0, s.len() as int) =~= s);
    }
}

proof fn lemma_trim_back_prefix(s: Seq<char>, j: int)
    requires
        0 <= j <= s.len(),
        forall|k: int| j <= k < s.len() ==> !is_alnum(s[k]),
    ensures
        trim_back(s) == trim_back(s.subrange(0, j)),
    decreases s.len() - j,
{
    if j < s.len() {
        lemma_trim_back_prefix(s.drop_last(), j);
        assert(s.drop_last().subrange(0, j) =~= s.subrange(0, j));
    } else {
        assert(s.subrange(0, j) =~= s);
    }
}

/// Turns a free text into a branch-name fragment.
pub fn normalize_str_as_branch_name(s: &str) -> (r: String)
    ensures
        r@ == branch_slug(s@),
{
    let v = chars_of(s);
    let n = v.len();
    let mut i: usize = 0;
    while i < n && !is_ascii_alnum(v[i])
        invariant
            v@ == s@,
            n == v@.len(),
            i <= n,
            forall|k: int| 0 <= k < i ==> !is_alnum(v@[k]),
        decreases n - i,
    {
        i = i + 1;
    }
    proof {
        lemma_trim_front_suffix(v@, i as int);
        if i < n {
            assert(trim_front(v@.subrange(i as int, n as int)) == v@.subrange(i as int, n as int));
        } else {
            assert(v@.subrange(i as int, n as int).len() == 0);
        }
    }
    let ghost front = v@.subrange(i as int, n as int);
    let mut j: usize = n;
    while j > i && !is_ascii_alnum(v[j - 1])
        invariant
            i <= j <= n,
            n == v@.len(),
            front == v@.subrange(i as int, n as int),
            forall|k: int| j <= k < n ==> !is_alnum(v@[k]),
        decreases j,
    {
        j = j - 1;
    }
    proof {
        lemma_trim_back_prefix(front, j - i);
        assert(front.subrange(0, j - i) =~= v@.subrange(i as int, j as int));
        if j > i {
            assert(trim_back(v@.subrange(i as int, j as int)) == v@.subrange(i as int, j as int));
        }
    }
    let mut r = String::new();
    let mut k: usize = i;
    let mut ends_with_dash = false;
    assert(v@.subrange(i as int, i as int) =~= Seq::<char>::empty());
    while k < j
        invariant
            i <= k <= j,
            j <= n,
            n == v@.len(),
            r@ == dashed(v@.subrange(i as int, k as int)),
            ends_with_dash == (r@.len() > 0 && r@.last() == '-'),
        decreases j - k,
    {
        let c = v[k];
        let ghost sub = v@.subrange(i as int, k + 1);
        assert(sub.drop_last() =~= v@.subrange(i as int, k as int));
        if is_ascii_alnum(c) {
            push_char(&mut r, c);
            ends_with_dash = false;
        } else if !ends_with_dash {
            push_char(&mut r, '-');
            ends_with_dash = true;
        }
        k = k + 1;
    }
    r
}

/// The identifying texts of an issue.
pub trait BaseIssue {
    spec fn id_view(&self) -> Seq<char>;

    spec fn id_readable_view(&self) -> Seq<char>;

    spec fn summary_view(&self) -> Seq<char>;

    /// The tracker's internal identifier.
    fn id(&self) -> (r: &str)
        ensures
            r@ == self.id_view(),
    ;

    /// The identifier shown to people, such as `PRJ-12`.
    fn id_readable(&self) -> (r: &str)
        ensures
            r@ == self.id_readable_view(),
    ;

    /// The one-line summary.
    fn summary(&self) -> (r: &str)
        ensures
            r@ == self.summary_view(),
    ;
}

/// A type whose sparse-fieldset list the tracker is asked for.
pub trait YoutrackFields {
    spec fn spec_fields() -> Seq<char>;

    /// The `fields=` list for this type.
    fn fields() -> (r: String)
        ensures
            r@ == Self::spec_fields(),
    ;
}

/// An issue with its identifiers and summary.
pub struct IssueShort {
    pub id: String,
    pub id_readable: String,
    pub summary: String,
}

impl BaseIssue for IssueShort {
    open spec fn id_view(&self) -> Seq<char> {
        self.id@
    }

    open spec fn id_readable_view(&self) -> Seq<char> {
        self.id_readable@
    }

    open spec fn summary_view(&self) -> Seq<char> {
        self.summary@
    }

    fn id(&self) -> (r: &str) {
        self.id.as_str()
    }

    fn id_readable(&self) -> (r: &str) {
        self.id_readable.as_str()
    }

    fn summary(&self) -> (r: &str) {
        self.summary.as_str()
    }
}

impl YoutrackFields for IssueShort {
    open spec fn spec_fields() -> Seq<char> {
        field_list(seq!["id"@, "idReadable"@, "summary"@])
    }

    fn fields() -> (r: String) {
        let names: Vec<&str> = vec!["id", "idReadable", "summary"];
        let r = normalize_field_names(names.as_slice());
        assert(names@.map_values(|f: &str| f@) =~= seq!["id"@, "idReadable"@, "summary"@]);
        r
    }
}

/// The local branch name for an issue: its readable identifier, followed by
/// a dash and the branch form of its summary when that is not empty.
pub open spec fn local_branch_name(id_readable: Seq<char>, summary: Seq<char>) -> Seq<char> {
    let slug = branch_slug(summary);
    if slug.len() == 0 {
        id_readable
    } else {
        id_readable + seq!['-'] + slug
    }
}

impl IssueShort {
    /// The name of the local branch for work on this issue.
    pub fn as_local_branch_name(&self) -> (r: String)
        ensures
            r@ == local_branch_name(self.id_readable@, self.summary@),
    {
        let slug = normalize_str_as_branch_name(self.summary.as_str());
        let mut r = String::new();
        r.append(self.id_readable.as_str());
        if slug.as_str().unicode_len() != 0 {
            push_char(&mut r, '-');
            r.append(slug.as_str());
        }
        r
    }

    /// The name of the remote branch for this issue: its readable identifier.
    pub fn as_remote_branch_name(&self) -> (r: String)
        ensures
            r@ == self.id_readable@,
    {
        let mut r = String::new();
        r.append(self.id_readable());
        r
    }

    /// Whether this is a back-end sub-task: its summary begins with `[BE]`.
    pub fn is_backend_sub_issue(&self) -> (r: bool)
        ensures
            r == "[BE]"@.is_prefix_of(self.summary@),
    {
        starts_with(self.summary(), "[BE]")
    }
}

/// The summary of the back-end sub-task of an issue.
pub fn subtask_summary(parent_summary: &str) -> (r: String)
    ensures
        r@ == "[BE] "@ + parent_summary@,
{
    let mut r = String::new();
    r.append("[BE] ");
    r.append(parent_summary);
    r
}

/// A sub-task named by `subtask_summary` counts as a back-end sub-task.
pub proof fn lemma_subtask_is_backend(parent_summary: Seq<char>)
    ensures
        "[BE]"@.is_prefix_of("[BE] "@ + parent_summary),
{
    reveal_strlit("[BE]");
    reveal_strlit("[BE] ");
    assert(("[BE] "@ + parent_summary).subrange(0, 4) =~= "[BE]"@);
}

/// An ASCII capital letter.
pub open spec fn is_upper(c: char) -> bool {
    'A' <= c && c <= 'Z'
}

/// An ASCII digit.
pub open spec fn is_digit(c: char) -> bool {
    '0' <= c && c <= '9'
}

/// A character that may stand in the descriptive tail of a branch name.
pub open spec fn is_slug_char(c: char) -> bool {
    is_alnum(c) || c == '_' || c == '-'
}

/// The end of the run of capitals that starts at `i`.
pub open spec fn upper_end(s: Seq<char>, i: int) -> int
    decreases s.len() - i,
{
    if 0 <= i < s.len() && is_upper(s[i]) {
        upper_end(s, i + 1)
    } else {
        i
    }
}

/// The end of the run of digits that starts at `i`.
pub open spec fn digit_end(s: Seq<char>, i: int) -> int
    decreases s.len() - i,
{
    if 0 <= i < s.len() && is_digit(s[i]) {
        digit_end(s, i + 1)
    } else {
        i
    }
}

/// The end of the run of tail characters that starts at `i`.
pub open spec fn slug_end(s: Seq<char>, i: int) -> int
    decreases s.len() - i,
{
    if 0 <= i < s.len() && is_slug_char(s[i]) {
        slug_end(s, i + 1)
    } else {
        i
    }
}

/// An issue key starts at `i`: capitals, a dash, and at least one digit.
pub open spec fn key_at(s: Seq<char>, i: int) -> bool {
    &&& 0 <= i < s.len()
    &&& is_upper(s[i])
    &&& upper_end(s, i) + 1 < s.len()
    &&& s[upper_end(s, i)] == '-'
    &&& is_digit(s[upper_end(s, i) + 1])
}

/// The first position at or after `i` where an issue key starts.
pub open spec fn first_key(s: Seq<char>, i: int) -> Option<int>
    decreases s.len() - i,
{
    if i < 0 || i >= s.len() {
        None
    } else if key_at(s, i) {
        Some(i)
    } else {
        first_key(s, i + 1)
    }
}

/// The value of a run of decimal digits.
pub open spec fn digits_value(d: Seq<char>) -> nat
    decreases d.len(),
{
    if d.len() == 0 {
        0
    } else {
        digits_value(d.drop_last()) * 10 + (d.last() as nat - '0' as nat) as nat
    }
}

/// The descriptive tail after the number that ends at `k`: a dash and a run
/// of letters, digits, `_` and `-`.
pub open spec fn slug_after(s: Seq<char>, k: int) -> Option<Seq<char>> {
    if 0 <= k && k + 1 < s.len() && s[k] == '-' && is_slug_char(s[k + 1]) {
        Some(s.subrange(k + 1, slug_end(s, k + 1)))
    } else {
        None
    }
}

/// Why a text holds no issue key.
#[derive(Debug, PartialEq, Eq, Structural)]
pub enum IssueKeyError {
    /// No run of capitals, a dash and digits stands in the text.
    NotFound,
    /// The issue number does not fit in 32 bits.
    NumberTooLarge,
}

/// A branch name that carries an issue key: the project's key, the issue
/// number, and an optional descriptive tail, as in `PRJ-12-fix-login`.
pub struct BranchNameWithIssueId {
    pub project_id: String,
    pub number: u32,
    pub slug: Option<String>,
}

/// What the first issue key in `s` reads as: the project key, the number
/// and the tail, or why there is none.
pub open spec fn parsed_key(s: Seq<char>) -> Result<(Seq<char>, nat, Option<Seq<char>>), IssueKeyError> {
    match first_key(s, 0) {
        None => Err(IssueKeyError::NotFound),
        Some(i) => {
            let j = upper_end(s, i);
            let k = digit_end(s, j + 1);
            let n = digits_value(s.subrange(j + 1, k));
            if n > u32::MAX {
                Err(IssueKeyError::NumberTooLarge)
            } else {
                Ok((s.subrange(i, j), n, slug_after(s, k)))
            }
        },
    }
}

proof fn lemma_upper_end_bounds(s: Seq<char>, i: int)
    requires
        0 <= i <= s.len(),
    ensures
        i <= upper_end(s, i) <= s.len(),
        forall|k: int| i <= k < upper_end(s, i) ==> is_upper(#[trigger] s[k]),
    decreases s.len() - i,
{
    if i < s.len() && is_upper(s[i]) {
        lemma_upper_end_bounds(s, i + 1);
    }
}

proof fn lemma_digit_end_bounds(s: Seq<char>, i: int)
    requires
        0 <= i <= s.len(),
    ensures
        i <= digit_end(s, i) <= s.len(),
        forall|k: int| i <= k < digit_end(s, i) ==> is_digit(#[trigger] s[k]),
    decreases s.len() - i,
{
    if i < s.len() && is_digit(s[i]) {
        lemma_digit_end_bounds(s, i + 1);
    }
}

proof fn lemma_slug_end_bounds(s: Seq<char>, i: int)
    requires
        0 <= i <= s.len(),
    ensures
        i <= slug_end(s, i) <= s.len(),
    decreases s.len() - i,
{
    if i < s.len() && is_slug_char(s[i]) {
        lemma_slug_end_bounds(s, i + 1);
    }
}

fn upper_end_of(v: &Vec<char>, i: usize) -> (r: usize)
    requires
        i <= v@.len(),
    ensures
        r == upper_end(v@, i as int),
        i <= r <= v@.len(),
{
    let mut j = i;
    while j < v.len() && 'A' <= v[j] && v[j] <= 'Z'
        invariant
            i <= j <= v@.len(),
            upper_end(v@, i as int) == upper_end(v@, j as int),
        decreases v@.len() - j,
    {
        j = j + 1;
    }
    j
}

fn digit_end_of(v: &Vec<char>, i: usize) -> (r: usize)
    requires
        i <= v@.len(),
    ensures
        r == digit_end(v@, i as int),
        i <= r <= v@.len(),
{
    let mut j = i;
    while j < v.len() && '0' <= v[j] && v[j] <= '9'
        invariant
            i <= j <= v@.len(),
            digit_end(v@, i as int) == digit_end(v@, j as int),
        decreases v@.len() - j,
    {
        j = j + 1;
    }
    j
}

fn slug_end_of(v: &Vec<char>, i: usize) -> (r: usize)
    requires
        i <= v@.len(),
    ensures
        r == slug_end(v@, i as int),
        i <= r <= v@.len(),
{
    let mut j = i;
    while j < v.len() && (is_ascii_alnum(v[j]) || v[j] == '_' || v[j] == '-')
        invariant
            i <= j <= v@.len(),
            slug_end(v@, i as int) == slug_end(v@, j as int),
        decreases v@.len() - j,
    {
        j = j + 1;
    }
    j
}

fn key_at_exec(v: &Vec<char>, i: usize) -> (r: bool)
    requires
        i < v@.len(),
    ensures
        r == key_at(v@, i as int),
{
    if !('A' <= v[i] && v[i] <= 'Z') {
        return false;
    }
    let j = upper_end_of(v, i);
    j < v.len() && v.len() - j > 1 && v[j] == '-' && '0' <= v[j + 1] && v[j + 1] <= '9'
}

/// Copies `v[from..to]` into a new string.
fn collect_range(v: &Vec<char>, from: usize, to: usize) -> (r: String)
    requires
        from <= to <= v@.len(),
    ensures
        r@ == v@.subrange(from as int, to as int),
{
    let mut r = String::new();
    let mut k = from;
    while k < to
        invariant
            from <= k <= to,
            to <= v@.len(),
            r@ == v@.subrange(from as int, k as int),
        decreases to - k,
    {
        push_char(&mut r, v[k]);
        assert(v@.subrange(from as int, k + 1) =~= v@.subrange(from as int, k as int).push(v@[k as int]));
        k = k + 1;
    }
    r
}

impl BranchNameWithIssueId {
    /// Reads the first issue key in `s`, as in `PRJ-12` or
    /// `PRJ-12-fix-login`; text around the key is ignored. The project key
    /// is a run of ASCII capitals, the number a run of ASCII digits that
    /// fits in 32 bits, and the optional tail, after a dash, a run of ASCII
    /// letters, digits, `_` and `-`.
    pub fn parse(s: &str) -> (r: Result<Self, IssueKeyError>)
        ensures
            r matches Ok(b) ==> parsed_key(s@) == Ok::<(Seq<char>, nat, Option<Seq<char>>), IssueKeyError>((b.project_id@, b.number as nat, opt_string_view(b.slug))),
            r matches Err(e) ==> parsed_key(s@) == Err::<(Seq<char>, nat, Option<Seq<char>>), IssueKeyError>(e),
    {
        let v = chars_of(s);
        let n = v.len();
        let mut i: usize = 0;
        while i < n && !key_at_exec(&v, i)
            invariant
                v@ == s@,
                n == v@.len(),
                i <= n,
                first_key(v@, 0) == first_key(v@, i as int),
            decreases n - i,
        {
            i = i + 1;
        }
        if i >= n {
            return Err(IssueKeyError::NotFound);
        }
        let j = upper_end_of(&v, i);
        let k = digit_end_of(&v, j + 1);
        proof {
            lemma_digit_end_bounds(v@, j + 1);
        }
        let ghost digits = v@.subrange(j + 1, k as int);
        let mut value: u64 = 0;
        let mut too_large = false;
        let mut d = j + 1;
        assert(v@.subrange(j + 1, j + 1) =~= Seq::<char>::empty());
        while d < k
            invariant
                j + 1 <= d <= k,
                k <= v@.len(),
                forall|x: int| j + 1 <= x < k ==> is_digit(#[trigger] v@[x]),
                !too_large ==> value as nat == digits_value(v@.subrange(j + 1, d as int)),
                !too_large ==> value <= u32::MAX,
                too_large ==> digits_value(v@.subrange(j + 1, d as int)) > u32::MAX,
            decreases k - d,
        {
            let c = v[d];
            let ghost sub = v@.subrange(j + 1, d + 1);
            assert(sub.drop_last() =~= v@.subrange(j + 1, d as int));
            assert(sub.last() == c);
            if !too_large {
                let dv = (c as u32 - '0' as u32) as u64;
                value = value * 10 + dv;
                if value > 4294967295u64 {
                    too_large = true;
                }
            }
            d = d + 1;
        }
        if too_large {
            return Err(IssueKeyError::NumberTooLarge);
        }
        let project_id = collect_range(&v, i, j);
        let slug = if k < n && n - k > 1 && v[k] == '-' && (is_ascii_alnum(v[k + 1]) || v[k + 1] == '_' || v[k + 1] == '-') {
            let e = slug_end_of(&v, k + 1);
            Some(collect_range(&v, k + 1, e))
        } else {
            None
        };
        Ok(BranchNameWithIssueId { project_id, number: value as u32, slug })
    }

    /// The issue key alone: project key, dash, number.
    pub fn short_name(&self) -> (r: String)
        ensures
            r@ == self.project_id@ + seq!['-'] + decimal(self.number as nat),
    {
        let mut r = String::new();
        r.append(self.project_id.as_str());
        push_char(&mut r, '-');
        push_decimal(&mut r, self.number as u64);
        r
    }
}

pub open spec fn opt_string_view(o: Option<String>) -> Option<Seq<char>> {
    match o {
        Some(s) => Some(s@),
        None => None,
    }
}

impl std::str::FromStr for BranchNameWithIssueId {
    type Err = IssueKeyError;

    fn from_str(s: &str) -> Result<Self, Self::Err> {
        BranchNameWithIssueId::parse(s)
    }
}

/// A custom field of an issue, with its value as the tracker sent it.
pub struct IssueCustomField {
    pub id: String,
    pub name: String,
    pub type_: String,
    pub value: serde_json::Value,
}

/// The custom fields of an issue.
pub struct IssueCustomFields(pub Vec<IssueCustomField>);

impl IssueCustomField {
    pub open spec fn spec_fields() -> Seq<char> {
        replaced(field_list(seq!["id"@, "name"@, "r#type"@, "value"@]), "value"@, "value({id,name})"@)
    }

    /// The `fields=` list of a custom field; of its value, the identifier
    /// and name.
    pub fn fields() -> (r: String)
        ensures
            r@ == Self::spec_fields(),
    {
        let names: Vec<&str> = vec!["id", "name", "r#type", "value"];
        assert(names@.map_values(|f: &str| f@) =~= seq!["id"@, "name"@, "r#type"@, "value"@]);
        let l = normalize_field_names(names.as_slice());
        proof {
            reveal_strlit("value");
        }
        replace_all(l.as_str(), "value", "value({id,name})")
    }
}

impl IssueCustomFields {
    /// The first custom field with the given name.
    pub fn get(&self, key: &str) -> (r: Option<&IssueCustomField>)
        ensures
            r matches Some(f) ==> exists|k: int|
                0 <= k < self.0@.len() && self.0@[k] == *f && f.name@ == key@ && forall|j: int|
                    0 <= j < k ==> (#[trigger] self.0@[j]).name@ != key@,
            r is None ==> forall|k: int| 0 <= k < self.0@.len() ==> (#[trigger] self.0@[k]).name@ != key@,
    {
        let mut i: usize = 0;
        while i < self.0.len()
            invariant
                i <= self.0@.len(),
                forall|j: int| 0 <= j < i ==> (#[trigger] self.0@[j]).name@ != key@,
            decreases self.0@.len() - i,
        {
            if str_eq(self.0[i].name.as_str(), key) {
                return Some(&self.0[i]);
            }
            i = i + 1;
        }
        None
    }
}

/// An issue with its project, reporter and custom fields.
pub struct IssueLong {
    pub id: String,
    pub id_readable: String,
    pub summary: String,
    pub project: Project,
    pub reporter: Option<User>,
    pub custom_fields: IssueCustomFields,
}

impl BaseIssue for IssueLong {
    open spec fn id_view(&self) -> Seq<char> {
        self.id@
    }

    open spec fn id_readable_view(&self) -> Seq<char> {
        self.id_readable@
    }

    open spec fn summary_view(&self) -> Seq<char> {
        self.summary@
    }

    fn id(&self) -> (r: &str) {
        self.id.as_str()
    }

    fn id_readable(&self) -> (r: &str) {
        self.id_readable.as_str()
    }

    fn summary(&self) -> (r: &str) {
        self.summary.as_str()
    }
}

/// `s` with `key` replaced by `key(inner)`.
pub open spec fn nested_in(s: Seq<char>, key: Seq<char>, inner: Seq<char>) -> Seq<char> {
    replaced(s, key, key + "("@ + inner + ")"@)
}

fn nest_field(outer: &str, key: &str, inner: &str) -> (r: String)
    requires
        key@.len() > 0,
    ensures
        r@ == nested_in(outer@, key@, inner@),
{
    let mut with = String::new();
    with.append(key);
    with.append("(");
    with.append(inner);
    with.append(")");
    replace_all(outer, key, with.as_str())
}

impl YoutrackFields for IssueLong {
    open spec fn spec_fields() -> Seq<char> {
        let base = field_list(
            seq!["id"@, "idReadable"@, "summary"@, "project"@, "reporter"@, "customFields"@],
        );
        nested_in(
            nested_in(nested_in(base, "project"@, Project::spec_fields()), "reporter"@, User::spec_fields()),
            "customFields"@,
            IssueCustomField::spec_fields(),
        )
    }

    fn fields() -> (r: String) {
        let names: Vec<&str> = vec!["id", "idReadable", "summary", "project", "reporter", "customFields"];
        assert(names@.map_values(|f: &str| f@) =~= seq!["id"@, "idReadable"@, "summary"@, "project"@, "reporter"@, "customFields"@]);
        let base = normalize_field_names(names.as_slice());
        proof {
            reveal_strlit("project");
            reveal_strlit("reporter");
            reveal_strlit("customFields");
        }
        let p = Project::fields();
        let u = User::fields();
        let c = IssueCustomField::fields();
        let a = nest_field(base.as_str(), "project", p.as_str());
        let b = nest_field(a.as_str(), "reporter", u.as_str());
        nest_field(b.as_str(), "customFields", c.as_str())
    }
}

} // verus!
