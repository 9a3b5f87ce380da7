//! The text of the two panes: one line per visible record on the left, the
//! details of the selected record on the right.

use super::state::SubmoduleInfo;
use crate::width::{
    columns, exceeds_width, is_printable_ascii, lemma_ascii_text_width, lemma_ascii_width_prefix,
    lemma_fitting_len, lemma_narrow_cut_is_exact, lemma_text_width_concat, text_width,
    truncate_to_width, width_prefix,
};
use vstd::prelude::*;
use vstd::string::StringExecFns;

verus! {

/// Columns kept for the short commit id and the blank after it.
pub const COMMIT_HASH_LENGTH: usize = 8;

/// Columns of the mark that ends a shortened name.
pub const THREE_DOTS_LENGTH: usize = 3;

/// The mark that ends a shortened name.
pub open spec fn three_dots() -> Seq<char> {
    seq!['.', '.', '.']
}

/// What stands for a short commit id that is not known.
pub open spec fn no_short_id() -> Seq<char> {
    Seq::new(7, |i: int| '0')
}

/// What stands for a commit id that is not known.
pub open spec fn no_full_id() -> Seq<char> {
    Seq::new(40, |i: int| '0')
}

/// Columns that a name may take in a pane of `width_available` columns.
pub open spec fn name_budget(width_available: nat) -> nat {
    if width_available <= COMMIT_HASH_LENGTH + THREE_DOTS_LENGTH {
        0
    } else {
        (width_available - COMMIT_HASH_LENGTH - THREE_DOTS_LENGTH) as nat
    }
}

/// Columns left for a name's own characters once it has to be shortened.
pub open spec fn cut_width(budget: nat) -> nat {
    if budget <= THREE_DOTS_LENGTH {
        0
    } else {
        (budget - THREE_DOTS_LENGTH) as nat
    }
}

/// A name made to fit `budget` columns: the name itself where it is no
/// wider, else its longest prefix that leaves room for the three dots,
/// followed by them.
pub open spec fn fitted_name(name: Seq<char>, budget: nat) -> Seq<char> {
    if text_width(name) <= budget {
        name
    } else {
        width_prefix(name, cut_width(budget)) + three_dots()
    }
}

/// `count` blanks.
pub open spec fn blanks(count: nat) -> Seq<char> {
    Seq::new(count, |i: int| ' ')
}

/// `text` followed by as many blanks as bring it to `width` characters.
pub open spec fn padded(text: Seq<char>, width: nat) -> Seq<char> {
    if text.len() >= width {
        text
    } else {
        text + blanks((width - text.len()) as nat)
    }
}

/// The name column of a line: the fitted name, padded to the budget, and a
/// blank.
pub open spec fn name_column(path: Seq<char>, budget: nat) -> Seq<char> {
    padded(fitted_name(path, budget), budget).push(' ')
}

/// The text of an optional field, `absent` standing for a missing one.
pub open spec fn text_or(field: Option<String>, absent: Seq<char>) -> Seq<char> {
    match field {
        Some(text) => text@,
        None => absent,
    }
}

/// The id column of a line: the short id, or seven zeros, and a blank.
pub open spec fn hash_column(short_id: Option<String>) -> Seq<char> {
    text_or(short_id, no_short_id()).push(' ')
}

/// One line of the list pane.
#[derive(Debug, Clone, PartialEq, Eq)]
pub struct ListLine {
    /// The name column.
    pub name: String,
    /// The id column.
    pub hash: String,
    /// Whether this is the selected record, to be drawn highlighted.
    pub selected: bool,
}

impl ListLine {
    /// This is the line of `record` in a pane whose names have `budget`
    /// columns.
    pub open spec fn shows(self, record: SubmoduleInfo, budget: nat, selected: bool) -> bool {
        &&& self.name@ == name_column(record.path@, budget)
        &&& self.hash@ == hash_column(record.short_id)
        &&& self.selected == selected
    }
}

/// What a line of the detail pane is, which decides how it is drawn.
#[derive(Debug, Clone, Copy, PartialEq, Eq, Structural)]
pub enum InfoKind {
    /// The name of a field.
    Label,
    /// The value of a field.
    Value,
    /// A commit id.
    Hash,
    /// An empty line between two fields.
    Blank,
}

/// One line of the detail pane.
#[derive(Debug, Clone, PartialEq, Eq)]
pub struct InfoLine {
    pub kind: InfoKind,
    pub text: String,
}

impl InfoLine {
    /// This line is of kind `kind` and reads `text`.
    pub open spec fn shows(self, kind: InfoKind, text: Seq<char>) -> bool {
        self.kind == kind && self.text@ == text
    }
}

/// The lines `lines` are the details of `record`: path, commit, url and
/// status, each under its label, with an empty line between two fields.
pub open spec fn shows_details(lines: Seq<InfoLine>, record: SubmoduleInfo) -> bool {
    &&& lines.len() == 11
    &&& lines[0].shows(InfoKind::Label, "Path:"@)
    &&& lines[1].shows(InfoKind::Value, record.path@)
    &&& lines[2].shows(InfoKind::Blank, Seq::empty())
    &&& lines[3].shows(InfoKind::Label, "Commit:"@)
    &&& lines[4].shows(InfoKind::Hash, text_or(record.full_id, no_full_id()))
    &&& lines[5].shows(InfoKind::Blank, Seq::empty())
    &&& lines[6].shows(InfoKind::Label, "Url:"@)
    &&& lines[7].shows(InfoKind::Value, text_or(record.url, Seq::empty()))
    &&& lines[8].shows(InfoKind::Blank, Seq::empty())
    &&& lines[9].shows(InfoKind::Label, "Status:"@)
    &&& lines[10].shows(InfoKind::Value, record.status.spec_name())
}

/// A name that is no wider than the budget is shown as it is.
pub proof fn lemma_short_name_unchanged(name: Seq<char>, budget: nat)
    requires
        text_width(name) <= budget,
    ensures
        fitted_name(name, budget) == name,
{
}

/// The three dots are three columns wide.
pub proof fn lemma_three_dots_width()
    ensures
        text_width(three_dots()) == THREE_DOTS_LENGTH,
{
    reveal_with_fuel(text_width, 4);
    let d = three_dots();
    assert(d.drop_last() =~= seq!['.', '.']);
    assert(d.drop_last().drop_last() =~= seq!['.']);
    assert(d.drop_last().drop_last().drop_last() =~= Seq::<char>::empty());
}

/// A fitted name keeps to the budget, provided the budget has room for the
/// three dots.
pub proof fn lemma_fitted_name_fits(name: Seq<char>, budget: nat)
    requires
        budget >= THREE_DOTS_LENGTH,
    ensures
        text_width(fitted_name(name, budget)) <= budget,
{
    if text_width(name) > budget {
        lemma_fitting_len(name, cut_width(budget));
        lemma_text_width_concat(width_prefix(name, cut_width(budget)), three_dots());
        lemma_three_dots_width();
    }
}

/// A name wider than the budget is shortened to exactly the budget, three
/// dots included, provided the budget has room for the dots and no
/// character of the name is wider than one column.
pub proof fn lemma_long_name_fills_budget(name: Seq<char>, budget: nat)
    requires
        text_width(name) > budget,
        budget >= THREE_DOTS_LENGTH,
        forall|i: int| 0 <= i < name.len() ==> columns(#[trigger] name[i]) <= 1,
    ensures
        fitted_name(name, budget) == width_prefix(name, cut_width(budget)) + three_dots(),
        text_width(fitted_name(name, budget)) == budget,
{
    lemma_narrow_cut_is_exact(name, cut_width(budget));
    lemma_text_width_concat(width_prefix(name, cut_width(budget)), three_dots());
    lemma_three_dots_width();
}

/// A name of printable ASCII characters is shown as it is where it has at
/// most `budget` characters; a longer one is cut to `budget` characters, of
/// which the last three are the dots.
pub proof fn lemma_fitted_ascii_name(name: Seq<char>, budget: nat)
    requires
        forall|i: int| 0 <= i < name.len() ==> is_printable_ascii(#[trigger] name[i]),
    ensures
        fitted_name(name, budget) == if name.len() <= budget {
            name
        } else {
            name.take(cut_width(budget) as int) + three_dots()
        },
        name.len() > budget >= THREE_DOTS_LENGTH ==> fitted_name(name, budget).len() == budget,
{
    lemma_ascii_text_width(name);
    lemma_ascii_width_prefix(name, cut_width(budget));
}

/// `name` made to fit `budget` columns; see [`fitted_name`].
pub fn fit_name(name: &str, budget: usize) -> (r: String)
    ensures
        r@ == fitted_name(name@, budget as nat),
{
    if exceeds_width(name, budget) {
        let (cut, _) = truncate_to_width(name, budget.saturating_sub(THREE_DOTS_LENGTH));
        let mut fitted = String::from_str(cut);
        proof {
            reveal_strlit("...");
            assert("..."@ =~= three_dots());
        }
        fitted.append("...");
        fitted
    } else {
        String::from_str(name)
    }
}

/// Appends blanks to `text` until it has `width` characters.
pub fn pad_right(text: &mut String, width: usize)
    ensures
        final(text)@ == padded(old(text)@, width as nat),
{
    let mut len = text.as_str().unicode_len();
    proof {
        assert(text@ + blanks(0) =~= text@);
    }
    while len < width
        invariant
            len >= old(text)@.len(),
            len <= width || len == old(text)@.len(),
            text@ == old(text)@ + blanks((len - old(text)@.len()) as nat),
            text@.len() == len,
        decreases width - len,
    {
        proof {
            reveal_strlit(" ");
            let before = blanks((len - old(text)@.len()) as nat);
            let after = blanks((len + 1 - old(text)@.len()) as nat);
            assert(old(text)@ + before + " "@ =~= old(text)@ + after);
        }
        text.append(" ");
        len = len + 1;
    }
}

/// The name column for `path`; see [`name_column`].
pub fn name_text(path: &str, budget: usize) -> (r: String)
    ensures
        r@ == name_column(path@, budget as nat),
{
    let mut name = fit_name(path, budget);
    pad_right(&mut name, budget);
    proof {
        reveal_strlit(" ");
        assert(name@ + " "@ =~= name@.push(' '));
    }
    name.append(" ");
    name
}

/// The text of `field`, or `absent` where there is none.
pub fn text_or_default(field: &Option<String>, absent: &str) -> (r: String)
    ensures
        r@ == text_or(*field, absent@),
{
    match field {
        Some(text) => text.clone(),
        None => String::from_str(absent),
    }
}

/// The id column for `short_id`; see [`hash_column`].
pub fn hash_text(short_id: &Option<String>) -> (r: String)
    ensures
        r@ == hash_column(*short_id),
{
    proof {
        reveal_strlit("0000000");
        assert("0000000"@ =~= no_short_id());
    }
    let mut hash = text_or_default(short_id, "0000000");
    proof {
        reveal_strlit(" ");
        assert(hash@ + " "@ =~= hash@.push(' '));
    }
    hash.append(" ");
    hash
}

/// The line of `record` in a pane of `width_available` columns.
pub fn list_line(record: &SubmoduleInfo, width_available: u16, selected: bool) -> (r: ListLine)
    ensures
        r.shows(*record, name_budget(width_available as nat), selected),
{
    let budget = (width_available as usize).saturating_sub(COMMIT_HASH_LENGTH).saturating_sub(
        THREE_DOTS_LENGTH,
    );
    ListLine {
        name: name_text(record.path.as_str(), budget),
        hash: hash_text(&record.short_id),
        selected,
    }
}

/// A line of the detail pane.
pub fn info_line(kind: InfoKind, text: String) -> (r: InfoLine)
    ensures
        r.kind == kind,
        r.text == text,
{
    InfoLine { kind, text }
}

/// The details of `record`; see [`shows_details`].
pub fn info_lines(record: &SubmoduleInfo) -> (r: Vec<InfoLine>)
    ensures
        shows_details(r@, *record),
{
    proof {
        reveal_strlit("0000000000000000000000000000000000000000");
        assert("0000000000000000000000000000000000000000"@ =~= no_full_id());
        reveal_strlit("");
        assert(""@ =~= Seq::<char>::empty());
    }
    let mut lines: Vec<InfoLine> = Vec::new();
    lines.push(info_line(InfoKind::Label, String::from_str("Path:")));
    lines.push(info_line(InfoKind::Value, record.path.clone()));
    lines.push(info_line(InfoKind::Blank, String::new()));
    lines.push(info_line(InfoKind::Label, String::from_str("Commit:")));
    lines.push(
        info_line(
            InfoKind::Hash,
            text_or_default(&record.full_id, "0000000000000000000000000000000000000000"),
        ),
    );
    lines.push(info_line(InfoKind::Blank, String::new()));
    lines.push(info_line(InfoKind::Label, String::from_str("Url:")));
    lines.push(info_line(InfoKind::Value, text_or_default(&record.url, "")));
    lines.push(info_line(InfoKind::Blank, String::new()));
    lines.push(info_line(InfoKind::Label, String::from_str("Status:")));
    lines.push(info_line(InfoKind::Value, String::from_str(record.status.name())));
    lines
}

} // verus!
