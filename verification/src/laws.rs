//! Properties of the badge pipeline, stated and proved once and for all:
//! how defaults are filled, when normalization must refuse a request, and
//! when it is a no-op.

use vstd::prelude::*;

use crate::badges::first_bad_colour;
use crate::badges::font_supported;
use crate::badges::fully_populated;
use crate::badges::icon_ok;
use crate::badges::normalize_result;
use crate::badges::registry_wf;
use crate::badges::render_context;
use crate::badges::starts_hash;
use crate::badges::with_colours;
use crate::badges::with_font;
use crate::badges::with_icon_scale;
use crate::badges::with_padding;
use crate::badges::BadgeModel;
use crate::badges::ErrorModel;
use crate::badges::FactoryModel;
use crate::badges::ValueModel;
use crate::ext;
use crate::text;

verus! {

/// With no icon requested and no text measured, the render context says
/// `contains_text = false` and carries no icon field at all.
pub proof fn lemma_plain_context_has_no_icon(
    m: BadgeModel,
    tb: (Seq<char>, Seq<char>),
    xb: Option<(Seq<char>, Seq<char>)>,
    ip: Option<Seq<char>>,
)
    requires
        m.icon is None,
        m.text is None,
        xb is Some ==> m.text is Some,
        m.icon is Some <==> ip is Some,
    ensures
        render_context(m, tb, xb, ip).contains(("contains_text"@, ValueModel::Flag(false))),
        forall|i: int|
            0 <= i < render_context(m, tb, xb, ip).len() ==> {
                let key = (#[trigger] render_context(m, tb, xb, ip)[i]).0;
                &&& key != "icon"@
                &&& key != "icon_title"@
                &&& key != "icon_path"@
                &&& key != "icon_colour"@
                &&& key != "icon_scale"@
            },
{
    reveal_strlit("title");
    reveal_strlit("title_width");
    reveal_strlit("title_height");
    reveal_strlit("text");
    reveal_strlit("text_width");
    reveal_strlit("text_height");
    reveal_strlit("contains_text");
    reveal_strlit("font_face");
    reveal_strlit("font_size");
    reveal_strlit("title_colour");
    reveal_strlit("title_bg_colour");
    reveal_strlit("text_colour");
    reveal_strlit("text_bg_colour");
    reveal_strlit("padding_horizontal");
    reveal_strlit("padding_vertical");
    reveal_strlit("icon");
    reveal_strlit("icon_title");
    reveal_strlit("icon_path");
    reveal_strlit("icon_colour");
    reveal_strlit("icon_scale");
    assert("title"@.len() == 5);
    assert("title_width"@.len() == 11);
    assert("title_height"@.len() == 12);
    assert("text"@.len() == 4);
    assert("text_width"@.len() == 10);
    assert("text_height"@.len() == 11);
    assert("contains_text"@.len() == 13);
    assert("font_face"@.len() == 9);
    assert("font_size"@.len() == 9);
    assert("title_colour"@.len() == 12);
    assert("title_bg_colour"@.len() == 15);
    assert("text_colour"@.len() == 11);
    assert("text_bg_colour"@.len() == 14);
    assert("padding_horizontal"@.len() == 18);
    assert("padding_vertical"@.len() == 16);
    assert("icon"@.len() == 4);
    assert("icon_title"@.len() == 10);
    assert("icon_path"@.len() == 9);
    assert("icon_colour"@.len() == 11);
    assert("icon_scale"@.len() == 10);
    assert("text"@[0] == 't' && "icon"@[0] == 'i');
    assert("text_width"@[0] == 't' && "icon_title"@[0] == 'i' && "icon_scale"@[0] == 'i');
    assert("font_face"@[0] == 'f' && "font_size"@[0] == 'f' && "icon_path"@[0] == 'i');
    assert("title_width"@[0] == 't' && "text_height"@[0] == 't' && "text_colour"@[0] == 't'
        && "icon_colour"@[0] == 'i');
    let ctx = render_context(m, tb, xb, ip);
    assert(ctx[6] == ("contains_text"@, ValueModel::Flag(false)));
    assert(ctx.contains(("contains_text"@, ValueModel::Flag(false))));
    assert(ctx.len() == 15);
    assert forall|i: int| 0 <= i < ctx.len() implies {
        let key = (#[trigger] ctx[i]).0;
        &&& key != "icon"@
        &&& key != "icon_title"@
        &&& key != "icon_path"@
        &&& key != "icon_colour"@
        &&& key != "icon_scale"@
    } by {
        if i == 0 {
            assert(ctx[i].0 == "title"@);
        } else if i == 1 {
            assert(ctx[i].0 == "title_width"@);
        } else if i == 2 {
            assert(ctx[i].0 == "title_height"@);
        } else if i == 3 {
            assert(ctx[i].0 == "text"@);
        } else if i == 4 {
            assert(ctx[i].0 == "text_width"@);
        } else if i == 5 {
            assert(ctx[i].0 == "text_height"@);
        } else if i == 6 {
            assert(ctx[i].0 == "contains_text"@);
        } else if i == 7 {
            assert(ctx[i].0 == "font_face"@);
        } else if i == 8 {
            assert(ctx[i].0 == "font_size"@);
        } else if i == 9 {
            assert(ctx[i].0 == "title_colour"@);
        } else if i == 10 {
            assert(ctx[i].0 == "title_bg_colour"@);
        } else if i == 11 {
            assert(ctx[i].0 == "text_colour"@);
        } else if i == 12 {
            assert(ctx[i].0 == "text_bg_colour"@);
        } else if i == 13 {
            assert(ctx[i].0 == "padding_horizontal"@);
        } else {
            assert(ctx[i].0 == "padding_vertical"@);
        }
    }
}

/// The pipeline keeps a plain request plain: a request without an icon and
/// without text still has neither after normalization, and whatever boxes
/// were measured, the context composed for it says `contains_text = false`
/// and carries no icon field.
pub proof fn lemma_plain_request_stays_plain(m: BadgeModel, f: FactoryModel, tb: (
    Seq<char>,
    Seq<char>,
))
    requires
        m.icon is None,
        m.text is None,
    ensures
        normalize_result(m, f).0.icon is None,
        normalize_result(m, f).0.text is None,
        render_context(normalize_result(m, f).0, tb, None, None).contains(
            ("contains_text"@, ValueModel::Flag(false)),
        ),
        forall|i: int|
            0 <= i < render_context(normalize_result(m, f).0, tb, None, None).len() ==> {
                let key = (#[trigger] render_context(normalize_result(m, f).0, tb, None, None)[i]).0;
                &&& key != "icon"@
                &&& key != "icon_title"@
                &&& key != "icon_path"@
                &&& key != "icon_colour"@
                &&& key != "icon_scale"@
            },
{
    lemma_plain_context_has_no_icon(normalize_result(m, f).0, tb, None, None);
}

/// Each of the four base colour defaults starts with `#`: a request with
/// such a field omitted always gets a `#`-colour filled in.
pub proof fn lemma_colour_defaults_hash(m: BadgeModel)
    ensures
        m.title_colour is None ==> starts_hash(with_colours(m).title_colour.unwrap()),
        m.title_bg_colour is None ==> starts_hash(with_colours(m).title_bg_colour.unwrap()),
        m.text_colour is None ==> starts_hash(with_colours(m).text_colour.unwrap()),
        m.text_bg_colour is None ==> starts_hash(with_colours(m).text_bg_colour.unwrap()),
{
    reveal_strlit("#fff");
    reveal_strlit("#000");
}

/// A supplied colour that does not start with `#` fails normalization with
/// `InvalidColour`, whatever else the request holds, as long as the font
/// stage before it passed.
pub proof fn lemma_bad_colour_rejected(m: BadgeModel, f: FactoryModel)
    requires
        font_supported(with_font(m, f), f),
        (m.title_colour matches Some(c) && !starts_hash(c)) || (m.title_bg_colour matches Some(c)
            && !starts_hash(c)) || (m.text_colour matches Some(c) && !starts_hash(c)) || (
        m.text_bg_colour matches Some(c) && !starts_hash(c)) || (m.icon_colour matches Some(c)
            && !starts_hash(c)),
    ensures
        normalize_result(m, f).1 matches Some(k) && k is InvalidColour,
{
}

/// With both font fields omitted the font stage fills in the registry's
/// first face and size, the pair is supported, and whatever later stages
/// decide, the request keeps exactly those fills.
pub proof fn lemma_font_defaults_used(m: BadgeModel, f: FactoryModel)
    requires
        registry_wf(f),
        m.font_face is None,
        m.font_size is None,
    ensures
        font_supported(with_font(m, f), f),
        normalize_result(m, f).1 != Some(ErrorModel::UnsupportedFont),
        normalize_result(m, f).0.font_face == Some(f.faces[0]),
        normalize_result(m, f).0.font_size == Some(f.sizes[0]),
{
    assert(f.faces[0] == f.faces[0] && 0 < f.faces.len());
    assert(f.faces.contains(f.faces[0]));
    assert(f.sizes[0] == f.sizes[0] && 0 < f.sizes.len());
    assert(f.sizes.contains(f.sizes[0]));
}

/// An icon the catalog does not resolve fails normalization with
/// `InvalidIcon`, whatever the other fields hold, as long as the stages
/// before it passed.
pub proof fn lemma_unknown_icon_rejected(m: BadgeModel, f: FactoryModel)
    requires
        font_supported(with_font(m, f), f),
        first_bad_colour(with_colours(with_font(m, f))) is None,
        m.icon matches Some(name) && ext::icon_lookup(name) is None,
    ensures
        normalize_result(m, f).1 == Some(ErrorModel::InvalidIcon),
{
}

/// After a successful normalization the title and text are safe to embed
/// in markup: no quote and no angle bracket is left in them.
pub proof fn lemma_normalized_text_is_safe(m: BadgeModel, f: FactoryModel)
    requires
        normalize_result(m, f).1 is None,
    ensures
        forall|i: int|
            0 <= i < normalize_result(m, f).0.title.len() ==> {
                let c = #[trigger] normalize_result(m, f).0.title[i];
                c != '<' && c != '>' && c != '"' && c != '\''
            },
        normalize_result(m, f).0.text matches Some(t) ==> forall|i: int|
            0 <= i < t.len() ==> {
                let c = #[trigger] t[i];
                c != '<' && c != '>' && c != '"' && c != '\''
            },
{
    let m4 = with_icon_scale(with_padding(with_colours(with_font(m, f))));
    text::lemma_escape_safe(m4.title);
    match m4.text {
        Some(t) => {
            text::lemma_escape_safe(t);
        },
        None => {},
    }
}

/// A request already in normal form: fully populated, its font supported,
/// its colours acceptable, its icon resolvable, and its title and text free
/// of characters the sanitizer would expand.
pub open spec fn normal_form(m: BadgeModel, f: FactoryModel) -> bool {
    &&& fully_populated(m)
    &&& font_supported(m, f)
    &&& first_bad_colour(m) is None
    &&& icon_ok(m)
    &&& text::escape_free(m.title)
    &&& (m.text matches Some(t) ==> text::escape_free(t))
}

/// Normalizing a request already in normal form is a no-op: it succeeds and
/// changes nothing.
pub proof fn lemma_normalize_idempotent(m: BadgeModel, f: FactoryModel)
    requires
        normal_form(m, f),
    ensures
        normalize_result(m, f).0 == m,
        normalize_result(m, f).1 is None,
{
    assert(with_font(m, f) =~= m);
    assert(with_colours(m) =~= m);
    assert(with_padding(m) =~= m);
    assert(with_icon_scale(m) =~= m);
    text::lemma_escape_noop(m.title);
    match m.text {
        Some(t) => {
            text::lemma_escape_noop(t);
        },
        None => {},
    }
    assert(crate::badges::sanitized(m) =~= m);
}

} // verus!

