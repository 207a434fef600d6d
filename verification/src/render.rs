//! The dual-format renderer: from the fetched collection it produces exactly
//! one representation per invocation — a human-oriented itemized list, with a
//! distinct message when the collection is empty, or a machine-oriented
//! pretty-printed JSON array that round-trips.
use vstd::prelude::*;

verus! {

use vstd::string::StringExecFns;

/// The two mutually exclusive output representations, selected once per
/// invocation by caller configuration.
#[derive(Clone, Copy, Debug, PartialEq, Eq, Structural)]
pub enum OutputMode {
    Human,
    Machine,
}

/// The human form of one item: two spaces of indent, the item's display form,
/// a line break.
pub open spec fn human_entry(item: Seq<char>) -> Seq<char> {
    "  "@ + item + "\n"@
}

/// The human entries of a collection, one per item, in input order.
pub open spec fn human_entries(items: Seq<Seq<char>>) -> Seq<char>
    decreases items.len(),
{
    if items.len() == 0 {
        Seq::empty()
    } else {
        human_entries(items.drop_last()) + human_entry(items.last())
    }
}

/// The human form of a collection: the empty message verbatim when there is
/// nothing to list; otherwise the title line followed by one entry per item,
/// input order preserved.
pub open spec fn human_list(items: Seq<Seq<char>>, title: Seq<char>, empty_message: Seq<char>) -> Seq<char> {
    if items.len() == 0 {
        empty_message
    } else {
        title + ":\n"@ + human_entries(items)
    }
}

/// Empty-collection rendering: the human form of an empty collection is
/// exactly the configured empty message — never a titled empty list.
pub proof fn lemma_empty_human_list(title: Seq<char>, empty_message: Seq<char>)
    ensures
        human_list(Seq::<Seq<char>>::empty(), title, empty_message) == empty_message,
{
}

/// Build the human representation of the collection.
pub fn build_list(items: &Vec<String>, title: &str, empty_message: &str) -> (r: String)
    ensures
        r@ == human_list(items.deep_view(), title@, empty_message@),
{
    let ghost dv = items.deep_view();
    proof {
        assert(dv.len() == items@.len());
    }
    if items.len() == 0 {
        return empty_message.to_owned();
    }
    let mut out: String = title.to_owned();
    out.append(":\n");
    let mut i: usize = 0;
    proof {
        assert(dv.take(0) =~= Seq::<Seq<char>>::empty());
        assert(out@ =~= title@ + ":\n"@ + human_entries(dv.take(0)));
    }
    while i < items.len()
        invariant
            i <= items@.len(),
            dv == items.deep_view(),
            dv.len() == items@.len(),
            out@ == title@ + ":\n"@ + human_entries(dv.take(i as int)),
        decreases items@.len() - i,
    {
        let ghost pre = out@;
        out.append("  ");
        out.append(items[i].as_str());
        out.append("\n");
        proof {
            assert(dv[i as int] == items@[i as int]@);
            assert(out@ =~= pre + human_entry(dv[i as int]));
            assert(dv.take(i as int + 1).drop_last() =~= dv.take(i as int));
            assert(dv.take(i as int + 1).last() == dv[i as int]);
            assert(human_entries(dv.take(i as int + 1)) == human_entries(dv.take(i as int))
                + human_entry(dv[i as int]));
            assert(out@ =~= title@ + ":\n"@ + human_entries(dv.take(i as int + 1)));
        }
        i = i + 1;
    }
    proof {
        assert(dv.take(dv.len() as int) =~= dv);
    }
    out
}

/// The machine form of a collection: the text the JSON serializer yields for
/// it. A function of the items alone.
pub uninterp spec fn json_of(items: Seq<Seq<char>>) -> Seq<char>;

/// Relies on serde_json::to_string_pretty on a vector of strings: a
/// pretty-printed JSON array of the items, a deterministic function of the
/// items alone. On a collection of plain strings the call cannot fail — its
/// only error sources are a `Serialize` impl that fails or a map with
/// non-string keys, and a vector of strings has neither — so it is total.
#[verifier::external_body]
fn to_json_pretty(items: &Vec<String>) -> (r: String)
    ensures
        r@ == json_of(items.deep_view()),
{
    serde_json::to_string_pretty(items).expect("a collection of strings always serializes")
}

/// What parsing guarantees: whichever collection the given text is the
/// serializer's output for, the parse hands exactly that collection back.
pub open spec fn parses_back(text: Seq<char>, r: Option<Vec<String>>) -> bool {
    forall|items: Seq<Seq<char>>|
        text == #[trigger] json_of(items) ==> (r matches Some(v) && v.deep_view() == items)
}

/// Relies on serde_json::from_str on a vector of strings: parsing the text the
/// serializer produced for a collection yields that collection back, same
/// items in the same order.
#[verifier::external_body]
fn parse_json_list(text: &str) -> (r: Option<Vec<String>>)
    ensures
        parses_back(text@, r),
{
    serde_json::from_str::<Vec<String>>(text).ok()
}

/// Produce the single string this run writes to standard output: the human
/// form in human mode, the machine form in machine mode — exactly one of the
/// two per invocation. Rendering is total: the human form is plain string
/// building, and the machine form's serializer cannot fail on a collection of
/// strings.
pub fn render_output(items: &Vec<String>, title: &str, empty_message: &str, mode: OutputMode) -> (r:
    String)
    ensures
        mode is Human ==> r@ == human_list(items.deep_view(), title@, empty_message@),
        mode is Machine ==> r@ == json_of(items.deep_view()),
{
    match mode {
        OutputMode::Human => build_list(items, title, empty_message),
        OutputMode::Machine => to_json_pretty(items),
    }
}

/// Round-trip of the machine form: parsing the machine-mode output of any
/// collection yields an equivalent collection — the same items in the same
/// order, unconditionally.
pub fn machine_round_trip(items: &Vec<String>) -> (r: Vec<String>)
    ensures
        r.deep_view() == items.deep_view(),
{
    let text = to_json_pretty(items);
    match parse_json_list(text.as_str()) {
        Some(v) => v,
        None => unreached(),
    }
}

} // verus!
