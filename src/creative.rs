//! Creative rewriting: the clearing-price macro is expanded in the DSP's markup, then the
//! exchange's own tracking is injected according to the markup's format.
use vstd::prelude::*;
use crate::json::{is_json_object, json_object_text};
use crate::price::{price_text, render_price};
use crate::text::{
    append_range, chars_of, contains, find_first, find_last, is_first_occurrence,
    is_last_occurrence, replace_all, replace_text,
};

verus! {

/// The clearing-price macro.
pub const AUCTION_PRICE_MACRO: &'static str = "{AUCTION_PRICE}";

/// The exchange's impression pixel, appended to HTML creatives.
pub const HTML_PIXEL: &'static str = "<img src=\"http://tk.rust-adx.com/impression?price={AUCTION_PRICE}\" style=\"display:none;\" />";

/// The exchange's impression element, placed in VAST creatives.
pub const VAST_IMPRESSION: &'static str = "<Impression><![CDATA[http://tk.rust-adx.com/impression?price={AUCTION_PRICE}]]></Impression>";

/// The exchange's tracking members, added to the top-level object of native JSON creatives.
pub const NATIVE_TRACKING: &'static str = "\"ssp_impression_tracking\":\"http://tk.rust-adx.com/impression?price={AUCTION_PRICE}\",\"ssp_click_tracking\":\"http://tk.rust-adx.com/click?price={AUCTION_PRICE}\"";

pub const HTML_SIGNAL: &'static str = "<html";

pub const VAST_SIGNAL: &'static str = "<VAST";

pub const BODY_CLOSE: &'static str = "</body>";

pub const INLINE_OPEN: &'static str = "<InLine>";

/// The format of a creative, as its markup shows it.
#[derive(PartialEq, Eq, Structural, Clone, Copy, Debug)]
pub enum CreativeFormat {
    Html,
    Vast,
    Native,
    Plain,
}

/// JSON's insignificant whitespace.
pub open spec fn is_space(c: char) -> bool {
    c == ' ' || c == '\t' || c == '\n' || c == '\r'
}

/// The number of whitespace characters `s` starts with.
pub open spec fn leading_spaces(s: Seq<char>) -> nat
    decreases s.len(),
{
    if s.len() > 0 && is_space(s[0]) {
        1 + leading_spaces(s.skip(1))
    } else {
        0
    }
}

/// `s`, with its leading whitespace skipped, starts with `{`.
pub open spec fn starts_object(s: Seq<char>) -> bool {
    leading_spaces(s) < s.len() && s[leading_spaces(s) as int] == '{'
}

/// The format signalled by the markup: `<html`, else `<VAST`, else a leading `{`.
pub open spec fn format_of(adm: Seq<char>) -> CreativeFormat {
    if contains(adm, HTML_SIGNAL@) {
        CreativeFormat::Html
    } else if contains(adm, VAST_SIGNAL@) {
        CreativeFormat::Vast
    } else if starts_object(adm) {
        CreativeFormat::Native
    } else {
        CreativeFormat::Plain
    }
}

/// The tracking the exchange injects into a creative of format `f`.
pub open spec fn tracking_fragment(f: CreativeFormat) -> Seq<char> {
    match f {
        CreativeFormat::Html => HTML_PIXEL@,
        CreativeFormat::Vast => VAST_IMPRESSION@,
        CreativeFormat::Native => NATIVE_TRACKING@,
        CreativeFormat::Plain => Seq::empty(),
    }
}

/// `s` with `frag` inserted at index `k`.
pub open spec fn insert_at(s: Seq<char>, k: int, frag: Seq<char>) -> Seq<char> {
    s.take(k) + frag + s.skip(k)
}

pub open spec fn first_occurrence(s: Seq<char>, p: Seq<char>) -> int {
    choose|i: int| is_first_occurrence(s, p, i)
}

pub open spec fn last_occurrence(s: Seq<char>, p: Seq<char>) -> int {
    choose|i: int| is_last_occurrence(s, p, i)
}

/// The pixel placed right after the last `</body>`, or at the end when there is none.
pub open spec fn html_injected(s: Seq<char>) -> Seq<char> {
    if contains(s, BODY_CLOSE@) {
        insert_at(s, last_occurrence(s, BODY_CLOSE@) + BODY_CLOSE@.len(), HTML_PIXEL@)
    } else {
        s + HTML_PIXEL@
    }
}

/// The impression element placed right after the first `<InLine>`, or at the end when there
/// is none.
pub open spec fn vast_injected(s: Seq<char>) -> Seq<char> {
    if contains(s, INLINE_OPEN@) {
        insert_at(s, first_occurrence(s, INLINE_OPEN@) + INLINE_OPEN@.len(), VAST_IMPRESSION@)
    } else {
        s + VAST_IMPRESSION@
    }
}

/// Every character of `s` is whitespace.
pub open spec fn all_space(s: Seq<char>) -> bool {
    forall|i: int| 0 <= i < s.len() ==> is_space(s[i])
}

/// For a JSON object `s`, the tracking members added as the object's last members, just
/// before its closing brace (with a separating comma unless the object is empty).
/// Text that is not a JSON object is left as it is.
pub open spec fn native_injected(s: Seq<char>, is_object: bool) -> Seq<char> {
    let open = leading_spaces(s) as int;
    let close = last_occurrence(s, seq!['}']);
    if is_object && starts_object(s) && contains(s, seq!['}']) && open < close {
        if all_space(s.subrange(open + 1, close)) {
            insert_at(s, close, NATIVE_TRACKING@)
        } else {
            insert_at(s, close, seq![','] + NATIVE_TRACKING@)
        }
    } else {
        s
    }
}

/// The tracking of format `f` injected into the (already price-expanded) markup `s`;
/// `is_object` says whether `s` is a JSON object.
pub open spec fn injected(s: Seq<char>, f: CreativeFormat, is_object: bool) -> Seq<char> {
    match f {
        CreativeFormat::Html => html_injected(s),
        CreativeFormat::Vast => vast_injected(s),
        CreativeFormat::Native => native_injected(s, is_object),
        CreativeFormat::Plain => s,
    }
}

/// The markup with every clearing-price macro replaced by the price's text.
pub open spec fn expanded(adm: Seq<char>, price: nat) -> Seq<char> {
    replace_all(adm, AUCTION_PRICE_MACRO@, price_text(price))
}

/// The winning creative as returned: the macro expanded to `price` first, then the tracking
/// of the original markup's format injected (its own macros left in place).
pub open spec fn rewritten(adm: Seq<char>, price: nat) -> Seq<char> {
    let s = expanded(adm, price);
    injected(s, format_of(adm), json_object_text(s))
}

proof fn lemma_first_unique(s: Seq<char>, p: Seq<char>, i: int)
    requires
        is_first_occurrence(s, p, i),
    ensures
        first_occurrence(s, p) == i,
{
    let j = first_occurrence(s, p);
    assert(is_first_occurrence(s, p, j));
    if j < i {
        assert(!crate::text::occurs_at(s, p, j));
    }
    if i < j {
        assert(!crate::text::occurs_at(s, p, i));
    }
}

proof fn lemma_last_unique(s: Seq<char>, p: Seq<char>, i: int)
    requires
        is_last_occurrence(s, p, i),
    ensures
        last_occurrence(s, p) == i,
{
    let j = last_occurrence(s, p);
    assert(is_last_occurrence(s, p, j));
    if j < i {
        assert(!crate::text::occurs_at(s, p, i));
    }
    if i < j {
        assert(!crate::text::occurs_at(s, p, j));
    }
}

fn is_space_char(c: char) -> (r: bool)
    ensures
        r == is_space(c),
{
    c == ' ' || c == '\t' || c == '\n' || c == '\r'
}

/// The number of whitespace characters `s` starts with.
pub fn count_leading_spaces(s: &Vec<char>) -> (r: usize)
    ensures
        r == leading_spaces(s@),
        r <= s@.len(),
{
    let mut i: usize = 0;
    assert(s@.skip(0) =~= s@);
    while i < s.len() && is_space_char(s[i])
        invariant
            i <= s@.len(),
            leading_spaces(s@) == i + leading_spaces(s@.skip(i as int)),
        decreases s.len() - i,
    {
        assert(s@.skip(i as int).skip(1) =~= s@.skip(i + 1));
        i = i + 1;
    }
    i
}

/// The format of a creative.
pub fn creative_format(adm: &str) -> (r: CreativeFormat)
    ensures
        r == format_of(adm@),
{
    let a = chars_of(adm);
    if find_first(&a, &chars_of(HTML_SIGNAL)).is_some() {
        CreativeFormat::Html
    } else if find_first(&a, &chars_of(VAST_SIGNAL)).is_some() {
        CreativeFormat::Vast
    } else {
        let k = count_leading_spaces(&a);
        if k < a.len() && a[k] == '{' {
            CreativeFormat::Native
        } else {
            CreativeFormat::Plain
        }
    }
}

/// The tracking the exchange injects into this creative, with its price macro unexpanded.
pub fn generate_ssp_tracking(adm: &str) -> (r: String)
    ensures
        r@ == tracking_fragment(format_of(adm@)),
{
    match creative_format(adm) {
        CreativeFormat::Html => String::from_str(HTML_PIXEL),
        CreativeFormat::Vast => String::from_str(VAST_IMPRESSION),
        CreativeFormat::Native => String::from_str(NATIVE_TRACKING),
        CreativeFormat::Plain => String::new(),
    }
}

/// `s` with `frag` inserted at character index `k`.
fn insert_text(s: &str, k: usize, frag: &str) -> (r: String)
    requires
        k <= s@.len(),
    ensures
        r@ == insert_at(s@, k as int, frag@),
{
    let mut out = String::new();
    append_range(&mut out, s, 0, k);
    out.append(frag);
    append_range(&mut out, s, k, chars_of(s).len());
    assert(s@.subrange(0, k as int) =~= s@.take(k as int));
    assert(s@.subrange(k as int, s@.len() as int) =~= s@.skip(k as int));
    out
}

fn inject_html(s: &str) -> (r: String)
    ensures
        r@ == html_injected(s@),
{
    let sc = chars_of(s);
    let body = chars_of(BODY_CLOSE);
    let n = sc.len();
    match find_last(&sc, &body) {
        Some(k) => {
            proof {
                lemma_last_unique(s@, BODY_CLOSE@, k as int);
                assert(crate::text::occurs_at(sc@, body@, k as int));
                assert(k + body@.len() <= n);
            }
            insert_text(s, k + body.len(), HTML_PIXEL)
        },
        None => {
            let mut out = String::from_str(s);
            out.append(HTML_PIXEL);
            out
        },
    }
}

fn inject_vast(s: &str) -> (r: String)
    ensures
        r@ == vast_injected(s@),
{
    let sc = chars_of(s);
    let inline = chars_of(INLINE_OPEN);
    let n = sc.len();
    match find_first(&sc, &inline) {
        Some(k) => {
            proof {
                lemma_first_unique(s@, INLINE_OPEN@, k as int);
                assert(crate::text::occurs_at(sc@, inline@, k as int));
                assert(k + inline@.len() <= n);
            }
            insert_text(s, k + inline.len(), VAST_IMPRESSION)
        },
        None => {
            let mut out = String::from_str(s);
            out.append(VAST_IMPRESSION);
            out
        },
    }
}

fn inject_native(s: &str, is_object: bool) -> (r: String)
    ensures
        r@ == native_injected(s@, is_object),
{
    let sc = chars_of(s);
    let open = count_leading_spaces(&sc);
    let mut close_brace: Vec<char> = Vec::new();
    close_brace.push('}');
    assert(close_brace@ =~= seq!['}']);
    if !is_object || open >= sc.len() || sc[open] != '{' {
        return String::from_str(s);
    }
    match find_last(&sc, &close_brace) {
        Some(close) => {
            proof {
                lemma_last_unique(s@, seq!['}'], close as int);
            }
            if close <= open {
                return String::from_str(s);
            }
            let mut i: usize = open + 1;
            while i < close && is_space_char(sc[i])
                invariant
                    sc@ == s@,
                    open + 1 <= i <= close,
                    close < sc@.len(),
                    forall|j: int| open + 1 <= j < i ==> is_space(s@[j]),
                decreases close - i,
            {
                i = i + 1;
            }
            if i == close {
                assert(all_space(s@.subrange(open + 1, close as int)));
                insert_text(s, close, NATIVE_TRACKING)
            } else {
                assert(!is_space(s@.subrange(open + 1, close as int)[i - open - 1]));
                let mut frag = String::from_str(",");
                frag.append(NATIVE_TRACKING);
                proof {
                    reveal_strlit(",");
                }
                assert(frag@ =~= seq![','] + NATIVE_TRACKING@);
                insert_text(s, close, frag.as_str())
            }
        },
        None => String::from_str(s),
    }
}

/// The tracking of format `format` injected into the price-expanded markup `s`, where
/// `is_object` tells whether `s` parses as a JSON object.
pub fn inject_tracking(s: &str, format: CreativeFormat, is_object: bool) -> (r: String)
    ensures
        r@ == injected(s@, format, is_object),
{
    match format {
        CreativeFormat::Html => inject_html(s),
        CreativeFormat::Vast => inject_vast(s),
        CreativeFormat::Native => inject_native(s, is_object),
        CreativeFormat::Plain => String::from_str(s),
    }
}

/// The markup with every clearing-price macro replaced by the text of `price` micro-units.
pub fn expand_price_macro(adm: &str, price: u64) -> (r: String)
    ensures
        r@ == expanded(adm@, price as nat),
{
    proof {
        reveal_strlit("{AUCTION_PRICE}");
    }
    let text = render_price(price);
    replace_text(adm, AUCTION_PRICE_MACRO, text.as_str())
}

/// The winning creative as returned to the SSP for a final price of `price` micro-units.
pub fn rewrite_creative(adm: &str, price: u64) -> (r: String)
    ensures
        r@ == rewritten(adm@, price as nat),
{
    let format = creative_format(adm);
    let s = expand_price_macro(adm, price);
    let is_object = if format == CreativeFormat::Native {
        is_json_object(s.as_str())
    } else {
        false
    };
    inject_tracking(s.as_str(), format, is_object)
}

} // verus!
