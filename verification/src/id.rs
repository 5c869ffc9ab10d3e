//! Deterministic ids for the components that conversion synthesizes.
//!
//! Notion block ids are reused for block-derived components; synthesized
//! components get ids derived from their parent's id, a slot label and an
//! index, so the same page always yields the same ids.
use vstd::prelude::*;
use vstd::string::StringExecFns;
use vstd::string::StrSliceExecFns;

verus! {

/// The id of the synthesized page-level root container.
pub const ROOT_ID: &'static str = "root";

/// The view of `ROOT_ID`.
pub open spec fn root_id() -> Seq<char> {
    seq!['r', 'o', 'o', 't']
}

/// The character of a decimal digit.
pub open spec fn digit_char(d: nat) -> char {
    seq!['0', '1', '2', '3', '4', '5', '6', '7', '8', '9'][d as int]
}

/// The decimal notation of `n`, without leading zeros.
pub open spec fn decimal(n: nat) -> Seq<char>
    decreases n,
{
    if n < 10 {
        seq![digit_char(n)]
    } else {
        decimal(n / 10).push(digit_char(n % 10))
    }
}

/// The view of `child_id(parent, slot, index)`: `<parent>::<slot>/<index>`.
pub open spec fn spec_child_id(parent: Seq<char>, slot: Seq<char>, index: nat) -> Seq<char> {
    parent + seq![':', ':'] + slot + seq!['/'] + decimal(index)
}

/// The view of `list_group_id(first)`: `<first>::list`.
pub open spec fn spec_list_group_id(first: Seq<char>) -> Seq<char> {
    first + seq![':', ':', 'l', 'i', 's', 't']
}

/// `s` with every `-` removed.
pub open spec fn without_dashes(s: Seq<char>) -> Seq<char> {
    s.filter(|c: char| c != '-')
}

/// The prefix of a Notion page URL.
pub open spec fn notion_url_prefix() -> Seq<char> {
    "https://www.notion.so/"@
}

/// The view of `notion_page_url(id)`.
pub open spec fn spec_notion_page_url(id: Seq<char>) -> Seq<char> {
    notion_url_prefix() + without_dashes(id)
}

fn digit_str(d: usize) -> (r: &'static str)
    requires
        d < 10,
    ensures
        r@ == seq![digit_char(d as nat)],
{
    proof {
        reveal_strlit("0");
        reveal_strlit("1");
        reveal_strlit("2");
        reveal_strlit("3");
        reveal_strlit("4");
        reveal_strlit("5");
        reveal_strlit("6");
        reveal_strlit("7");
        reveal_strlit("8");
        reveal_strlit("9");
    }
    match d {
        0 => "0",
        1 => "1",
        2 => "2",
        3 => "3",
        4 => "4",
        5 => "5",
        6 => "6",
        7 => "7",
        8 => "8",
        _ => "9",
    }
}

/// Appends the decimal notation of `n` to `out`.
pub(crate) fn append_decimal(out: &mut String, n: usize)
    ensures
        final(out)@ == old(out)@ + decimal(n as nat),
    decreases n,
{
    if n >= 10 {
        append_decimal(out, n / 10);
    }
    out.append(digit_str(n % 10));
    proof {
        assert(old(out)@ + decimal(n as nat) =~= if n >= 10 {
            old(out)@ + decimal((n / 10) as nat) + seq![digit_char((n % 10) as nat)]
        } else {
            old(out)@ + seq![digit_char((n % 10) as nat)]
        });
    }
}

/// Mints the id `<parent>::<slot>/<index>` of the `index`-th child that a
/// component synthesizes in `slot`.
pub fn child_id(parent: &str, slot: &str, index: usize) -> (r: String)
    ensures
        r@ == spec_child_id(parent@, slot@, index as nat),
{
    let mut out = String::from_str(parent);
    out.append("::");
    out.append(slot);
    out.append("/");
    append_decimal(&mut out, index);
    proof {
        reveal_strlit("::");
        reveal_strlit("/");
        assert(out@ =~= spec_child_id(parent@, slot@, index as nat));
    }
    out
}

/// The id `<first>::list` of the `List` that groups a run of list items
/// whose first item has id `first`.
pub fn list_group_id(first: &str) -> (r: String)
    ensures
        r@ == spec_list_group_id(first@),
{
    let mut out = String::from_str(first);
    out.append("::list");
    proof {
        reveal_strlit("::list");
        assert(out@ =~= spec_list_group_id(first@));
    }
    out
}

proof fn lemma_filter_push(s: Seq<char>, c: char)
    ensures
        without_dashes(s.push(c)) == if c != '-' {
            without_dashes(s).push(c)
        } else {
            without_dashes(s)
        },
{
    reveal(Seq::filter);
    assert(s.push(c).drop_last() =~= s);
}

/// The URL `https://www.notion.so/<id without dashes>` of a Notion page.
pub fn notion_page_url(block_id: &str) -> (r: String)
    ensures
        r@ == spec_notion_page_url(block_id@),
{
    let mut out = String::from_str("https://www.notion.so/");
    let n = block_id.unicode_len();
    let mut i: usize = 0;
    while i < n
        invariant
            n == block_id@.len(),
            i <= n,
            out@ == notion_url_prefix() + without_dashes(block_id@.take(i as int)),
        decreases n - i,
    {
        let c = block_id.get_char(i);
        proof {
            assert(block_id@.take(i + 1) =~= block_id@.take(i as int).push(c));
            lemma_filter_push(block_id@.take(i as int), c);
        }
        if c != '-' {
            let piece = block_id.substring_char(i, i + 1);
            proof {
                assert(piece@ =~= seq![c]);
            }
            out.append(piece);
        }
        i = i + 1;
    }
    proof {
        assert(block_id@.take(n as int) =~= block_id@);
        assert(out@ =~= spec_notion_page_url(block_id@));
    }
    out
}

proof fn lemma_decimal_len(n: nat)
    ensures
        decimal(n).len() >= 1,
        n >= 10 ==> decimal(n).len() >= 2,
    decreases n,
{
    if n >= 10 {
        lemma_decimal_len(n / 10);
    }
}

/// Different numbers have different decimal notations.
pub proof fn lemma_decimal_injective(a: nat, b: nat)
    requires
        decimal(a) == decimal(b),
    ensures
        a == b,
    decreases a,
{
    lemma_decimal_len(a);
    lemma_decimal_len(b);
    let digits = seq!['0', '1', '2', '3', '4', '5', '6', '7', '8', '9'];
    assert(forall|i: int, j: int| 0 <= i < 10 && 0 <= j < 10 && i != j ==> digits[i] != digits[j]);
    if a < 10 && b < 10 {
        assert(decimal(a)[0] == digit_char(a));
        assert(decimal(b)[0] == digit_char(b));
    } else if a >= 10 && b >= 10 {
        let da = decimal(a);
        let db = decimal(b);
        assert(da.last() == digit_char(a % 10));
        assert(db.last() == digit_char(b % 10));
        assert(da.drop_last() =~= decimal(a / 10));
        assert(db.drop_last() =~= decimal(b / 10));
        lemma_decimal_injective(a / 10, b / 10);
    }
}

/// The runs, cells and markers that one parent synthesizes in one slot get
/// distinct ids: ids of different indices differ.
pub proof fn lemma_child_ids_distinct(parent: Seq<char>, slot: Seq<char>, i: nat, j: nat)
    requires
        i != j,
    ensures
        spec_child_id(parent, slot, i) != spec_child_id(parent, slot, j),
{
    let prefix = parent + seq![':', ':'] + slot + seq!['/'];
    assert(spec_child_id(parent, slot, i) =~= prefix + decimal(i));
    assert(spec_child_id(parent, slot, j) =~= prefix + decimal(j));
    if spec_child_id(parent, slot, i) == spec_child_id(parent, slot, j) {
        assert((prefix + decimal(i)).skip(prefix.len() as int) =~= decimal(i));
        assert((prefix + decimal(j)).skip(prefix.len() as int) =~= decimal(j));
        lemma_decimal_injective(i, j);
    }
}

} // verus!
