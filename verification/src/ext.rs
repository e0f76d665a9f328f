//! The trusted boundary: every call into an outside crate that the badge
//! pipeline makes goes through exactly one item here, with the contract the
//! outside crate's source supports. Nothing else in the library is trusted.

use vstd::prelude::*;

use crate::badges::TemplateValue;
use crate::badges::TextBox;
use crate::text::escape_seq;
use liquid::model::Value;

verus! {

// ---------------------------------------------------------------------------
// glyph_bbox: the metrics dataset
// ---------------------------------------------------------------------------

#[verifier::external_type_specification]
#[verifier::external_body]
pub struct ExDataSet(glyph_bbox::dataset::DataSet);

/// The set of font face/size pairs for which the metrics dataset holds a
/// per-glyph table.
pub uninterp spec fn dataset_fonts(ds: glyph_bbox::dataset::DataSet) -> Set<(Seq<char>, Seq<char>)>;

/// The font face list the dataset's configuration holds, in order.
pub uninterp spec fn dataset_face_list(ds: glyph_bbox::dataset::DataSet) -> Seq<Seq<char>>;

/// The font size list the dataset's configuration holds, in order.
pub uninterp spec fn dataset_size_list(ds: glyph_bbox::dataset::DataSet) -> Seq<Seq<char>>;

/// Whether every metrics row of the dataset is a width/height pair: each
/// per-glyph box row and each fallback mean row holds at least two entries.
/// Measuring indexes those rows, so this is what keeps it from panicking.
pub uninterp spec fn dataset_rows_wf(ds: glyph_bbox::dataset::DataSet) -> bool;

/// The width/height box the dataset measures for a string under a face and
/// size, both dimensions rendered in decimal. The dataset is compiled data:
/// the result depends on the four arguments alone.
pub uninterp spec fn dataset_box(
    ds: glyph_bbox::dataset::DataSet,
    s: Seq<char>,
    face: Seq<char>,
    size: Seq<char>,
) -> (Seq<char>, Seq<char>);

/// Relies on glyph_bbox's `DataSet`: `data` maps each covered font face to
/// the per-size metrics tables; this tests membership of both keys.
#[verifier::external_body]
pub(crate) fn dataset_has_font(ds: &glyph_bbox::dataset::DataSet, face: &str, size: &str) -> (r:
    bool)
    ensures
        r == dataset_fonts(*ds).contains((face@, size@)),
{
    match ds.data.get(face) {
        Some(m) => m.contains_key(size),
        None => false,
    }
}

/// Relies on `DataSet::bounding_box`: when the face/size pair is present in
/// the data it returns a width/height box for any string (widths summed over
/// glyphs, height the tallest glyph). It panics when the pair is missing or
/// when a metrics row is shorter than a width/height pair; both are excluded
/// by the preconditions. The data is fixed, so the box is a function of the
/// four arguments, named `dataset_box`; dimensions come back in decimal.
#[verifier::external_body]
pub(crate) fn measure(
    ds: &glyph_bbox::dataset::DataSet,
    s: &str,
    face: &str,
    size: &str,
) -> (r: Option<TextBox>)
    requires
        dataset_fonts(*ds).contains((face@, size@)),
        dataset_rows_wf(*ds),
    ensures
        r is Some,
        r.unwrap()@ == dataset_box(*ds, s@, face@, size@),
{
    let opts = glyph_bbox::dataset::BoundingBoxRenderOptions {
        face: face.to_string(),
        size: size.to_string(),
    };
    ds.bounding_box(s, opts).map(
        |b| TextBox { width: format!("{}", b[0]), height: format!("{}", b[1]) },
    )
}

/// Relies on glyph_bbox's `DataSet`: copies the configured font face list,
/// named `dataset_face_list`. `Factory::new` validates what it holds.
#[verifier::external_body]
pub(crate) fn dataset_font_faces(ds: &glyph_bbox::dataset::DataSet) -> (r: Vec<String>)
    ensures
        r.deep_view() == dataset_face_list(*ds),
{
    ds.config.font.faces.clone()
}

/// Relies on glyph_bbox's `DataSet`: copies the configured font size list,
/// named `dataset_size_list`. `Factory::new` validates what it holds.
#[verifier::external_body]
pub(crate) fn dataset_font_sizes(ds: &glyph_bbox::dataset::DataSet) -> (r: Vec<String>)
    ensures
        r.deep_view() == dataset_size_list(*ds),
{
    ds.config.font.sizes.clone()
}

/// Relies on glyph_bbox's `DataSet` layout: walks every per-glyph table and
/// checks that each box row, and the fallback mean row (reached through its
/// serialized form, since the field is private), holds at least two
/// entries — exactly what `DataSet::bounding_box` indexes. This is the
/// checked meaning of `dataset_rows_wf`.
#[verifier::external_body]
pub(crate) fn dataset_rows_well_formed(ds: &glyph_bbox::dataset::DataSet) -> (r: bool)
    ensures
        r == dataset_rows_wf(*ds),
{
    ds.data.values().all(
        |by_size| by_size.values().all(
            |fd| fd.boxes.iter().all(|b| b.len() >= 2) && serde_json::to_value(&fd.signals).ok()
                .and_then(|v| v.get("mean").and_then(|m| m.as_array().map(|a| a.len() >= 2)))
                .unwrap_or(false),
        ),
    )
}

// ---------------------------------------------------------------------------
// simple_icons: the icon catalog
// ---------------------------------------------------------------------------

/// The icon catalog: the SVG path data the catalog holds under a name, if
/// any. The catalog is compiled into the crate, so the result depends on the
/// name alone.
pub uninterp spec fn icon_lookup(name: Seq<char>) -> Option<Seq<char>>;

/// Relies on `simple_icons::get`: a fixed compiled-in catalog keyed by icon
/// title; on a hit this hands back the icon's vector path data.
#[verifier::external_body]
pub(crate) fn icon_path(name: &str) -> (r: Option<String>)
    ensures
        match r {
            Some(p) => icon_lookup(name@) == Some(p@),
            None => icon_lookup(name@) is None,
        },
{
    simple_icons::get(name).map(|icon| icon.path.to_string())
}

// ---------------------------------------------------------------------------
// htmlescape: entity encoding
// ---------------------------------------------------------------------------

/// Relies on `htmlescape::encode_minimal`: each character is replaced by its
/// minimal HTML entity (`&` `<` `>` `"` `'`) or kept as it is.
#[verifier::external_body]
pub(crate) fn encode_minimal(s: &str) -> (r: String)
    ensures
        r@ == escape_seq(s@),
{
    htmlescape::encode_minimal(s)
}

// ---------------------------------------------------------------------------
// liquid: the template engine
// ---------------------------------------------------------------------------

/// Whether liquid's parser, with its standard tags and filters, accepts a
/// template text. Parsing is a function of the text alone.
pub uninterp spec fn template_ok(src: Seq<char>) -> bool;

/// Relies on liquid's `ParserBuilder` and `Parser::parse`: parsing depends
/// on the template text alone.
#[verifier::external_body]
pub(crate) fn template_parses(src: &str) -> (r: bool)
    ensures
        r == template_ok(src@),
{
    liquid::ParserBuilder::with_stdlib().build().and_then(|p| p.parse(src)).is_ok()
}

/// Relies on liquid: parses `src` and renders it over the given key/value
/// context; any parser or renderer error comes back as the engine's message.
#[verifier::external_body]
pub(crate) fn render_template(src: &str, ctx: &Vec<(String, TemplateValue)>) -> (r: Result<
    String,
    String,
>) {
    let t = match liquid::ParserBuilder::with_stdlib().build().and_then(|p| p.parse(src)) {
        Ok(t) => t,
        Err(e) => return Err(e.to_string()),
    };
    let mut obj = liquid::Object::new();
    for (k, v) in ctx.iter() {
        obj.insert(k.clone().into(), match v {
            TemplateValue::Text(s) => Value::scalar(s.clone()),
            TemplateValue::Flag(b) => Value::scalar(*b),
            TemplateValue::Number(n) => Value::scalar(*n),
        });
    }
    t.render(&obj).map_err(|e| e.to_string())
}

} // verus!
