//! The badge pipeline: request normalization, the font capability registry,
//! layout resolution and render context composition.

use vstd::prelude::*;

use crate::ext;
use crate::text;

verus! {

// ---------------------------------------------------------------------------
// Errors
// ---------------------------------------------------------------------------

/// Why a badge could not be rendered.
#[derive(Debug, PartialEq, Eq)]
pub enum BadgeError {
    /// The requested font face/size pair is not in the capability registry.
    UnsupportedFont,
    /// A colour token does not start with `#`; carries the offending value.
    InvalidColour(String),
    /// The requested icon is not in the catalog.
    InvalidIcon,
    /// A text segment could not be measured.
    LayoutFailed,
    /// The template engine refused the render.
    RenderFailed,
}

/// The mathematical shape of a `BadgeError`.
pub ghost enum ErrorModel {
    UnsupportedFont,
    InvalidColour(Seq<char>),
    InvalidIcon,
    LayoutFailed,
    RenderFailed,
}

impl View for BadgeError {
    type V = ErrorModel;

    open spec fn view(&self) -> ErrorModel {
        match self {
            BadgeError::UnsupportedFont => ErrorModel::UnsupportedFont,
            BadgeError::InvalidColour(c) => ErrorModel::InvalidColour(c@),
            BadgeError::InvalidIcon => ErrorModel::InvalidIcon,
            BadgeError::LayoutFailed => ErrorModel::LayoutFailed,
            BadgeError::RenderFailed => ErrorModel::RenderFailed,
        }
    }
}

/// The message text for each error, as the service reports it.
pub open spec fn error_message(k: ErrorModel) -> Seq<char> {
    match k {
        ErrorModel::UnsupportedFont => "unsupported font"@,
        ErrorModel::InvalidColour(c) => "invalid colour: "@ + c,
        ErrorModel::InvalidIcon => "invalid icon"@,
        ErrorModel::LayoutFailed => "failed to render badge"@,
        ErrorModel::RenderFailed => "failed to render badge"@,
    }
}

impl BadgeError {
    /// A human-readable message for the error.
    pub fn message(&self) -> (r: String)
        ensures
            r@ == error_message(self@),
    {
        match self {
            BadgeError::UnsupportedFont => String::from_str("unsupported font"),
            BadgeError::InvalidColour(c) => {
                let mut s = String::from_str("invalid colour: ");
                s.append(c.as_str());
                s
            },
            BadgeError::InvalidIcon => String::from_str("invalid icon"),
            BadgeError::LayoutFailed => String::from_str("failed to render badge"),
            BadgeError::RenderFailed => String::from_str("failed to render badge"),
        }
    }
}

// ---------------------------------------------------------------------------
// The badge request and its model
// ---------------------------------------------------------------------------

/// A badge request, as the query parameters populate it: `title` always
/// present, everything else optional until normalization fills it in.
/// Paddings and the icon scale travel as decimal text.
pub struct SvgBadgeInput {
    pub title: String,
    pub text: Option<String>,
    pub title_colour: Option<String>,
    pub text_colour: Option<String>,
    pub title_bg_colour: Option<String>,
    pub text_bg_colour: Option<String>,
    pub font_face: Option<String>,
    pub font_size: Option<String>,
    pub padding_horizontal: Option<String>,
    pub padding_vertical: Option<String>,
    pub icon: Option<String>,
    pub icon_colour: Option<String>,
    pub icon_scale: Option<String>,
}

/// The mathematical shape of a badge request.
#[verifier::ext_equal]
pub ghost struct BadgeModel {
    pub title: Seq<char>,
    pub text: Option<Seq<char>>,
    pub title_colour: Option<Seq<char>>,
    pub text_colour: Option<Seq<char>>,
    pub title_bg_colour: Option<Seq<char>>,
    pub text_bg_colour: Option<Seq<char>>,
    pub font_face: Option<Seq<char>>,
    pub font_size: Option<Seq<char>>,
    pub padding_horizontal: Option<Seq<char>>,
    pub padding_vertical: Option<Seq<char>>,
    pub icon: Option<Seq<char>>,
    pub icon_colour: Option<Seq<char>>,
    pub icon_scale: Option<Seq<char>>,
}

impl View for SvgBadgeInput {
    type V = BadgeModel;

    open spec fn view(&self) -> BadgeModel {
        BadgeModel {
            title: self.title@,
            text: self.text.deep_view(),
            title_colour: self.title_colour.deep_view(),
            text_colour: self.text_colour.deep_view(),
            title_bg_colour: self.title_bg_colour.deep_view(),
            text_bg_colour: self.text_bg_colour.deep_view(),
            font_face: self.font_face.deep_view(),
            font_size: self.font_size.deep_view(),
            padding_horizontal: self.padding_horizontal.deep_view(),
            padding_vertical: self.padding_vertical.deep_view(),
            icon: self.icon.deep_view(),
            icon_colour: self.icon_colour.deep_view(),
            icon_scale: self.icon_scale.deep_view(),
        }
    }
}

// ---------------------------------------------------------------------------
// The capability registry model
// ---------------------------------------------------------------------------

/// The mathematical shape of a factory: the capability registry, the host
/// name and the template text.
pub ghost struct FactoryModel {
    pub faces: Seq<Seq<char>>,
    pub sizes: Seq<Seq<char>>,
    pub host: Seq<char>,
    pub template: Seq<char>,
}

/// Usable font lists: both nonempty, every size a decimal token. The
/// whole-number restriction on sizes is deliberately narrower than "any
/// number": the padding defaults are computed exactly in decimal, and a
/// fractional size is refused loudly at startup rather than mis-halved.
pub open spec fn registry_lists_wf(faces: Seq<Seq<char>>, sizes: Seq<Seq<char>>) -> bool {
    &&& faces.len() > 0
    &&& sizes.len() > 0
    &&& forall|i: int| 0 <= i < sizes.len() ==> text::numeric_token(#[trigger] sizes[i])
}

/// A usable registry: its two font lists are.
pub open spec fn registry_wf(f: FactoryModel) -> bool {
    registry_lists_wf(f.faces, f.sizes)
}

// ---------------------------------------------------------------------------
// Normalization, stage by stage
// ---------------------------------------------------------------------------

/// A colour token is acceptable when it starts with `#`.
pub open spec fn starts_hash(s: Seq<char>) -> bool {
    s.len() > 0 && s[0] == '#'
}

/// The font stage's fills: missing face and size come from the head of the
/// registry lists.
pub open spec fn with_font(m: BadgeModel, f: FactoryModel) -> BadgeModel {
    BadgeModel {
        font_face: if m.font_face is Some {
            m.font_face
        } else {
            Some(f.faces[0])
        },
        font_size: if m.font_size is Some {
            m.font_size
        } else {
            Some(f.sizes[0])
        },
        ..m
    }
}

/// The registry supports a filled request's font: face and size each appear
/// in their configured list, checked independently.
pub open spec fn font_supported(m: BadgeModel, f: FactoryModel) -> bool {
    f.faces.contains(m.font_face.unwrap()) && f.sizes.contains(m.font_size.unwrap())
}

/// The colour stage's fills: fixed defaults for the four base colours, and
/// the icon colour following the title colour when an icon is requested.
pub open spec fn with_colours(m: BadgeModel) -> BadgeModel {
    let title_colour = if m.title_colour is Some {
        m.title_colour.unwrap()
    } else {
        "#fff"@
    };
    BadgeModel {
        title_colour: Some(title_colour),
        title_bg_colour: if m.title_bg_colour is Some {
            m.title_bg_colour
        } else {
            Some("#000"@)
        },
        text_colour: if m.text_colour is Some {
            m.text_colour
        } else {
            Some("#000"@)
        },
        text_bg_colour: if m.text_bg_colour is Some {
            m.text_bg_colour
        } else {
            Some("#fff"@)
        },
        icon_colour: if m.icon_colour is Some {
            m.icon_colour
        } else if m.icon is Some {
            Some(title_colour)
        } else {
            None
        },
        ..m
    }
}

/// The first filled colour that does not start with `#`, in the fixed check
/// order: title, title background, text, text background, icon.
pub open spec fn first_bad_colour(m: BadgeModel) -> Option<Seq<char>> {
    if !starts_hash(m.title_colour.unwrap()) {
        Some(m.title_colour.unwrap())
    } else if !starts_hash(m.title_bg_colour.unwrap()) {
        Some(m.title_bg_colour.unwrap())
    } else if !starts_hash(m.text_colour.unwrap()) {
        Some(m.text_colour.unwrap())
    } else if !starts_hash(m.text_bg_colour.unwrap()) {
        Some(m.text_bg_colour.unwrap())
    } else if m.icon_colour is Some && !starts_hash(m.icon_colour.unwrap()) {
        Some(m.icon_colour.unwrap())
    } else {
        None
    }
}

/// The padding stage's fills: half the font size across, an eighth of it
/// down, both rendered exactly in decimal.
pub open spec fn with_padding(m: BadgeModel) -> BadgeModel {
    BadgeModel {
        padding_horizontal: if m.padding_horizontal is Some {
            m.padding_horizontal
        } else {
            Some(text::halved(m.font_size.unwrap()))
        },
        padding_vertical: if m.padding_vertical is Some {
            m.padding_vertical
        } else {
            Some(text::eighthed(m.font_size.unwrap()))
        },
        ..m
    }
}

/// The icon stage's fill: a missing scale defaults to `0.9` when an icon is
/// requested.
pub open spec fn with_icon_scale(m: BadgeModel) -> BadgeModel {
    if m.icon is Some && m.icon_scale is None {
        BadgeModel { icon_scale: Some("0.9"@), ..m }
    } else {
        m
    }
}

/// The icon stage accepts a request without an icon, or one whose icon the
/// catalog resolves.
pub open spec fn icon_ok(m: BadgeModel) -> bool {
    m.icon is None || ext::icon_lookup(m.icon.unwrap()) is Some
}

/// The sanitize stage: title and text get their minimal HTML entity
/// encoding, after every other stage has validated the raw values.
pub open spec fn sanitized(m: BadgeModel) -> BadgeModel {
    BadgeModel {
        title: text::escape_seq(m.title),
        text: match m.text {
            Some(t) => Some(text::escape_seq(t)),
            None => None,
        },
        ..m
    }
}

/// The whole normalization pipeline: the request as far as it got, and the
/// first error if a stage refused it. Stages run only while all before them
/// succeeded: font, colours, padding, icon, sanitize.
pub open spec fn normalize_result(m: BadgeModel, f: FactoryModel) -> (BadgeModel, Option<
    ErrorModel,
>) {
    let m1 = with_font(m, f);
    if !font_supported(m1, f) {
        (m1, Some(ErrorModel::UnsupportedFont))
    } else {
        let m2 = with_colours(m1);
        if first_bad_colour(m2) is Some {
            (m2, Some(ErrorModel::InvalidColour(first_bad_colour(m2).unwrap())))
        } else {
            let m3 = with_padding(m2);
            let m4 = with_icon_scale(m3);
            if !icon_ok(m4) {
                (m4, Some(ErrorModel::InvalidIcon))
            } else {
                (sanitized(m4), None)
            }
        }
    }
}

/// A fully populated request, as normalization leaves it on success.
pub open spec fn fully_populated(m: BadgeModel) -> bool {
    &&& m.font_face is Some
    &&& m.font_size is Some
    &&& m.title_colour is Some
    &&& m.title_bg_colour is Some
    &&& m.text_colour is Some
    &&& m.text_bg_colour is Some
    &&& m.padding_horizontal is Some
    &&& m.padding_vertical is Some
    &&& (m.icon is Some ==> m.icon_colour is Some && m.icon_scale is Some)
}

// ---------------------------------------------------------------------------
// The normalization chain, executable
// ---------------------------------------------------------------------------

/// Checks that a colour token starts with `#`.
fn colour_acceptable(s: &String) -> (r: bool)
    ensures
        r == starts_hash(s@),
{
    if s.as_str().unicode_len() == 0 {
        false
    } else {
        s.as_str().get_char(0) == '#'
    }
}

impl SvgBadgeInput {
    /// Runs the whole normalization chain, stage by stage, stopping at the
    /// first stage that refuses the request.
    pub fn validate_n_populate(&mut self, factory: &Factory) -> (r: Result<(), BadgeError>)
        requires
            factory.wf(),
        ensures
            final(self)@ == normalize_result(old(self)@, factory@).0,
            match normalize_result(old(self)@, factory@).1 {
                Some(k) => r matches Err(e) && e@ == k,
                None => r is Ok,
            },
    {
        match self.validate_font(factory) {
            Err(e) => {
                return Err(e);
            },
            Ok(()) => {},
        }
        match self.validate_colours() {
            Err(e) => {
                return Err(e);
            },
            Ok(()) => {},
        }
        proof {
            let m2 = with_colours(with_font(old(self)@, factory@));
            let s = m2.font_size.unwrap();
            assert(factory@.sizes.contains(s));
            let i = choose|i: int| 0 <= i < factory@.sizes.len() && factory@.sizes[i] == s;
            assert(text::numeric_token(factory@.sizes[i]));
        }
        match self.validate_padding() {
            Err(e) => {
                return Err(e);
            },
            Ok(()) => {},
        }
        match self.validate_icon() {
            Err(e) => {
                return Err(e);
            },
            Ok(()) => {},
        }
        self.sanitize_input()
    }

    /// Fills a missing font face and size from the registry defaults, then
    /// checks the pair against the registry.
    pub fn validate_font(&mut self, f: &Factory) -> (r: Result<(), BadgeError>)
        requires
            f.wf(),
        ensures
            final(self)@ == with_font(old(self)@, f@),
            r is Ok <==> font_supported(with_font(old(self)@, f@), f@),
            r matches Err(e) ==> e == BadgeError::UnsupportedFont,
    {
        if self.font_face.is_none() {
            self.font_face = Some(f.default_font_face());
        }
        if self.font_size.is_none() {
            self.font_size = Some(f.default_font_size());
        }
        let face = self.font_face.as_ref().unwrap().clone();
        let size = self.font_size.as_ref().unwrap().clone();
        if f.supports_font(face, size) {
            Ok(())
        } else {
            Err(BadgeError::UnsupportedFont)
        }
    }

    /// Fills missing colours with the fixed defaults (and the icon colour
    /// from the title colour when an icon is requested), then checks each
    /// against the `#` rule in the fixed order.
    pub fn validate_colours(&mut self) -> (r: Result<(), BadgeError>)
        ensures
            final(self)@ == with_colours(old(self)@),
            match first_bad_colour(with_colours(old(self)@)) {
                Some(c) => r matches Err(e) && e@ == ErrorModel::InvalidColour(c),
                None => r is Ok,
            },
    {
        if self.title_colour.is_none() {
            self.title_colour = Some(String::from_str("#fff"));
        }
        if self.title_bg_colour.is_none() {
            self.title_bg_colour = Some(String::from_str("#000"));
        }
        if self.text_colour.is_none() {
            self.text_colour = Some(String::from_str("#000"));
        }
        if self.text_bg_colour.is_none() {
            self.text_bg_colour = Some(String::from_str("#fff"));
        }
        if self.icon_colour.is_none() && self.icon.is_some() {
            self.icon_colour = Some(self.title_colour.as_ref().unwrap().clone());
        }
        if !colour_acceptable(self.title_colour.as_ref().unwrap()) {
            return Err(BadgeError::InvalidColour(self.title_colour.as_ref().unwrap().clone()));
        }
        if !colour_acceptable(self.title_bg_colour.as_ref().unwrap()) {
            return Err(BadgeError::InvalidColour(self.title_bg_colour.as_ref().unwrap().clone()));
        }
        if !colour_acceptable(self.text_colour.as_ref().unwrap()) {
            return Err(BadgeError::InvalidColour(self.text_colour.as_ref().unwrap().clone()));
        }
        if !colour_acceptable(self.text_bg_colour.as_ref().unwrap()) {
            return Err(BadgeError::InvalidColour(self.text_bg_colour.as_ref().unwrap().clone()));
        }
        match &self.icon_colour {
            Some(c) => {
                if !colour_acceptable(c) {
                    return Err(BadgeError::InvalidColour(c.clone()));
                }
            },
            None => {},
        }
        Ok(())
    }

    /// Fills missing paddings from the font size: half of it across, an
    /// eighth of it down.
    pub fn validate_padding(&mut self) -> (r: Result<(), BadgeError>)
        requires
            old(self)@.font_size is Some,
            text::numeric_token(old(self)@.font_size.unwrap()),
        ensures
            final(self)@ == with_padding(old(self)@),
            r is Ok,
    {
        if self.padding_horizontal.is_none() {
            let p = text::half_of_token(self.font_size.as_ref().unwrap().as_str());
            self.padding_horizontal = Some(p);
        }
        if self.padding_vertical.is_none() {
            let p = text::eighth_of_token(self.font_size.as_ref().unwrap().as_str());
            self.padding_vertical = Some(p);
        }
        Ok(())
    }

    /// With an icon requested: defaults a missing scale, then resolves the
    /// icon in the catalog. Without one, does nothing.
    pub fn validate_icon(&mut self) -> (r: Result<(), BadgeError>)
        ensures
            final(self)@ == with_icon_scale(old(self)@),
            r is Ok <==> icon_ok(with_icon_scale(old(self)@)),
            r matches Err(e) ==> e == BadgeError::InvalidIcon,
    {
        if self.icon.is_none() {
            return Ok(());
        }
        if self.icon_scale.is_none() {
            self.icon_scale = Some(String::from_str("0.9"));
        }
        match ext::icon_path(self.icon.as_ref().unwrap().as_str()) {
            Some(_path) => Ok(()),
            None => Err(BadgeError::InvalidIcon),
        }
    }

    /// Entity-encodes the title and, when present, the text. The last stage:
    /// everything else validated the raw values.
    pub fn sanitize_input(&mut self) -> (r: Result<(), BadgeError>)
        ensures
            final(self)@ == sanitized(old(self)@),
            r is Ok,
    {
        let t = ext::encode_minimal(self.title.as_str());
        self.title = t;
        match &self.text {
            Some(s) => {
                let e = ext::encode_minimal(s.as_str());
                self.text = Some(e);
            },
            None => {},
        }
        Ok(())
    }
}

// ---------------------------------------------------------------------------
// The factory: registry, template and host
// ---------------------------------------------------------------------------

/// What a factory is built from: the metrics dataset, the host name the
/// service advertises, and the badge template text.
pub struct FactoryOptions {
    pub render_dataset: glyph_bbox::dataset::DataSet,
    pub host: String,
    pub svg_template: String,
}

/// Why a factory could not be built. Either condition is fatal at startup:
/// no request can be served without a template and a usable registry.
#[derive(Debug, Clone, Copy, PartialEq, Eq, Structural)]
pub enum StartupError {
    /// The template engine refused the badge template text.
    BadTemplate,
    /// The metrics dataset's font lists are empty or hold a size that is not
    /// a decimal token.
    BadRegistry,
}

/// The badge factory: the capability registry read out of the dataset, the
/// dataset itself for measurements, the template and the host.
pub struct Factory {
    opts: FactoryOptions,
    faces: Vec<String>,
    sizes: Vec<String>,
}

impl View for Factory {
    type V = FactoryModel;

    closed spec fn view(&self) -> FactoryModel {
        FactoryModel {
            faces: self.faces.deep_view(),
            sizes: self.sizes.deep_view(),
            host: self.opts.host@,
            template: self.opts.svg_template@,
        }
    }
}

/// Copies a list of strings.
fn clone_strings(v: &Vec<String>) -> (r: Vec<String>)
    ensures
        r.deep_view() == v.deep_view(),
{
    let mut r: Vec<String> = Vec::new();
    let mut i: usize = 0;
    while i < v.len()
        invariant
            0 <= i <= v.len(),
            r@.len() == i,
            forall|j: int| 0 <= j < i ==> r.deep_view()[j] == v.deep_view()[j],
        decreases v.len() - i,
    {
        let ghost prev = r@;
        r.push(v[i].clone());
        proof {
            assert(forall|j: int| 0 <= j < i ==> r@[j] == prev[j]);
            assert(r@[i as int] == v@[i as int]);
        }
        i = i + 1;
    }
    proof {
        assert(r.deep_view() =~= v.deep_view());
    }
    r
}

/// Whether a list of strings holds one with the same characters.
fn contains_string(v: &Vec<String>, s: &String) -> (r: bool)
    ensures
        r == v.deep_view().contains(s@),
{
    let mut i: usize = 0;
    while i < v.len()
        invariant
            0 <= i <= v.len(),
            forall|j: int| 0 <= j < i ==> v.deep_view()[j] != s@,
        decreases v.len() - i,
    {
        if v[i] == *s {
            proof {
                assert(v.deep_view()[i as int] == s@);
            }
            return true;
        }
        i = i + 1;
    }
    proof {
        assert(forall|j: int| 0 <= j < v.deep_view().len() ==> v.deep_view()[j] != s@);
    }
    false
}

impl Factory {
    /// A factory is usable when its registry is and its dataset's metrics
    /// rows are well formed, so that measuring cannot panic.
    pub open spec fn wf(&self) -> bool {
        registry_wf(self@) && ext::dataset_rows_wf(self.spec_dataset())
    }

    /// The metrics dataset the factory measures with.
    pub closed spec fn spec_dataset(&self) -> glyph_bbox::dataset::DataSet {
        self.opts.render_dataset
    }

    /// Builds a factory: checks the template parses, reads the font lists
    /// out of the dataset, checks they make a usable registry and that the
    /// dataset's metrics rows are well formed. Succeeds exactly when all
    /// three hold, and the factory then carries the dataset's own lists.
    pub fn new(opts: FactoryOptions) -> (r: Result<Factory, StartupError>)
        ensures
            r matches Ok(f) ==> {
                &&& f.wf()
                &&& f@.host == opts.host@
                &&& f@.template == opts.svg_template@
                &&& f@.faces == ext::dataset_face_list(opts.render_dataset)
                &&& f@.sizes == ext::dataset_size_list(opts.render_dataset)
                &&& f.spec_dataset() == opts.render_dataset
            },
            r is Ok <==> ext::template_ok(opts.svg_template@) && registry_lists_wf(
                ext::dataset_face_list(opts.render_dataset),
                ext::dataset_size_list(opts.render_dataset),
            ) && ext::dataset_rows_wf(opts.render_dataset),
            r matches Err(e) ==> (e == StartupError::BadTemplate <==> !ext::template_ok(
                opts.svg_template@,
            )),
    {
        if !ext::template_parses(opts.svg_template.as_str()) {
            return Err(StartupError::BadTemplate);
        }
        let faces = ext::dataset_font_faces(&opts.render_dataset);
        let sizes = ext::dataset_font_sizes(&opts.render_dataset);
        if faces.len() == 0 || sizes.len() == 0 {
            return Err(StartupError::BadRegistry);
        }
        let mut i: usize = 0;
        while i < sizes.len()
            invariant
                0 <= i <= sizes.len(),
                ext::template_ok(opts.svg_template@),
                faces.deep_view() == ext::dataset_face_list(opts.render_dataset),
                sizes.deep_view() == ext::dataset_size_list(opts.render_dataset),
                faces.len() > 0,
                sizes.len() > 0,
                forall|j: int|
                    0 <= j < i ==> text::numeric_token(#[trigger] sizes.deep_view()[j]),
            decreases sizes.len() - i,
        {
            if !text::is_numeric_token(sizes[i].as_str()) {
                proof {
                    assert(!text::numeric_token(sizes.deep_view()[i as int]));
                }
                return Err(StartupError::BadRegistry);
            }
            i = i + 1;
        }
        if !ext::dataset_rows_well_formed(&opts.render_dataset) {
            return Err(StartupError::BadRegistry);
        }
        Ok(Factory { opts, faces, sizes })
    }

    /// The URL badge requests are served under.
    pub fn render_endpoint(&self) -> (r: String)
        ensures
            r@ == self@.host + "/v1/badge.svg"@,
    {
        let mut s = self.opts.host.clone();
        s.append("/v1/badge.svg");
        s
    }

    /// The configured font faces.
    pub fn font_faces(&self) -> (r: Vec<String>)
        ensures
            r.deep_view() == self@.faces,
    {
        clone_strings(&self.faces)
    }

    /// The configured font sizes.
    pub fn font_sizes(&self) -> (r: Vec<String>)
        ensures
            r.deep_view() == self@.sizes,
    {
        clone_strings(&self.sizes)
    }

    /// The default font face: the first configured one.
    pub fn default_font_face(&self) -> (r: String)
        requires
            self.wf(),
        ensures
            r@ == self@.faces[0],
    {
        self.faces[0].clone()
    }

    /// The default font size: the first configured one.
    pub fn default_font_size(&self) -> (r: String)
        requires
            self.wf(),
        ensures
            r@ == self@.sizes[0],
    {
        self.sizes[0].clone()
    }

    /// Whether the registry supports a face and a size, each checked against
    /// its own list.
    pub fn supports_font(&self, face: String, size: String) -> (r: bool)
        ensures
            r == (self@.faces.contains(face@) && self@.sizes.contains(size@)),
    {
        contains_string(&self.faces, &face) && contains_string(&self.sizes, &size)
    }
}

// ---------------------------------------------------------------------------
// Layout boxes and the render context
// ---------------------------------------------------------------------------

/// The measured box of one text segment, dimensions rendered in decimal.
pub struct TextBox {
    pub width: String,
    pub height: String,
}

impl View for TextBox {
    type V = (Seq<char>, Seq<char>);

    open spec fn view(&self) -> (Seq<char>, Seq<char>) {
        (self.width@, self.height@)
    }
}

impl DeepView for TextBox {
    type V = (Seq<char>, Seq<char>);

    open spec fn deep_view(&self) -> (Seq<char>, Seq<char>) {
        self.view()
    }
}

/// One value handed to the template: text, a flag, or a number.
pub enum TemplateValue {
    Text(String),
    Flag(bool),
    Number(i64),
}

/// The mathematical shape of a template value.
pub ghost enum ValueModel {
    Text(Seq<char>),
    Flag(bool),
    Number(i64),
}

impl View for TemplateValue {
    type V = ValueModel;

    open spec fn view(&self) -> ValueModel {
        match self {
            TemplateValue::Text(s) => ValueModel::Text(s@),
            TemplateValue::Flag(b) => ValueModel::Flag(*b),
            TemplateValue::Number(n) => ValueModel::Number(*n),
        }
    }
}

/// The view of a whole key/value context.
pub open spec fn ctx_view(v: Seq<(String, TemplateValue)>) -> Seq<(Seq<char>, ValueModel)> {
    v.map_values(|e: (String, TemplateValue)| (e.0@, e.1@))
}

/// The render context for a normalized request and its measured layout:
/// title and its box; the text segment with its box and `contains_text`
/// when measured, empty text and zero boxes otherwise; the font, colour and
/// padding fields; and the icon fields exactly when an icon is requested.
pub open spec fn render_context(
    m: BadgeModel,
    tb: (Seq<char>, Seq<char>),
    xb: Option<(Seq<char>, Seq<char>)>,
    ip: Option<Seq<char>>,
) -> Seq<(Seq<char>, ValueModel)> {
    seq![
        ("title"@, ValueModel::Text(m.title)),
        ("title_width"@, ValueModel::Text(tb.0)),
        ("title_height"@, ValueModel::Text(tb.1)),
    ] + (match xb {
        Some(b) => seq![
            ("text"@, ValueModel::Text(m.text.unwrap())),
            ("text_width"@, ValueModel::Text(b.0)),
            ("text_height"@, ValueModel::Text(b.1)),
            ("contains_text"@, ValueModel::Flag(true)),
        ],
        None => seq![
            ("text"@, ValueModel::Text(Seq::empty())),
            ("text_width"@, ValueModel::Number(0)),
            ("text_height"@, ValueModel::Number(0)),
            ("contains_text"@, ValueModel::Flag(false)),
        ],
    }) + seq![
        ("font_face"@, ValueModel::Text(m.font_face.unwrap())),
        ("font_size"@, ValueModel::Text(m.font_size.unwrap())),
        ("title_colour"@, ValueModel::Text(m.title_colour.unwrap())),
        ("title_bg_colour"@, ValueModel::Text(m.title_bg_colour.unwrap())),
        ("text_colour"@, ValueModel::Text(m.text_colour.unwrap())),
        ("text_bg_colour"@, ValueModel::Text(m.text_bg_colour.unwrap())),
        ("padding_horizontal"@, ValueModel::Text(m.padding_horizontal.unwrap())),
        ("padding_vertical"@, ValueModel::Text(m.padding_vertical.unwrap())),
    ] + (match ip {
        Some(path) => seq![
            ("icon"@, ValueModel::Flag(true)),
            ("icon_title"@, ValueModel::Text(m.icon.unwrap() + " icon"@)),
            ("icon_path"@, ValueModel::Text(path)),
            ("icon_colour"@, ValueModel::Text(m.icon_colour.unwrap())),
            ("icon_scale"@, ValueModel::Text(m.icon_scale.unwrap())),
        ],
        None => Seq::empty(),
    })
}

/// Builds the render context for a normalized request: exactly one of the
/// four icon/text shapes.
pub fn compose_context(
    input: &SvgBadgeInput,
    title_box: &TextBox,
    text_box: &Option<TextBox>,
    icon_path: &Option<String>,
) -> (r: Vec<(String, TemplateValue)>)
    requires
        fully_populated(input@),
        text_box is Some ==> input@.text is Some,
        input@.icon is Some <==> icon_path is Some,
    ensures
        ctx_view(r@) == render_context(
            input@,
            title_box@,
            text_box.deep_view(),
            icon_path.deep_view(),
        ),
{
    let mut ctx: Vec<(String, TemplateValue)> = Vec::new();
    ctx.push((String::from_str("title"), TemplateValue::Text(input.title.clone())));
    ctx.push((String::from_str("title_width"), TemplateValue::Text(title_box.width.clone())));
    ctx.push((String::from_str("title_height"), TemplateValue::Text(title_box.height.clone())));
    match text_box {
        Some(b) => {
            ctx.push(
                (
                    String::from_str("text"),
                    TemplateValue::Text(input.text.as_ref().unwrap().clone()),
                ),
            );
            ctx.push((String::from_str("text_width"), TemplateValue::Text(b.width.clone())));
            ctx.push((String::from_str("text_height"), TemplateValue::Text(b.height.clone())));
            ctx.push((String::from_str("contains_text"), TemplateValue::Flag(true)));
        },
        None => {
            ctx.push((String::from_str("text"), TemplateValue::Text(String::new())));
            ctx.push((String::from_str("text_width"), TemplateValue::Number(0)));
            ctx.push((String::from_str("text_height"), TemplateValue::Number(0)));
            ctx.push((String::from_str("contains_text"), TemplateValue::Flag(false)));
        },
    }
    ctx.push(
        (
            String::from_str("font_face"),
            TemplateValue::Text(input.font_face.as_ref().unwrap().clone()),
        ),
    );
    ctx.push(
        (
            String::from_str("font_size"),
            TemplateValue::Text(input.font_size.as_ref().unwrap().clone()),
        ),
    );
    ctx.push(
        (
            String::from_str("title_colour"),
            TemplateValue::Text(input.title_colour.as_ref().unwrap().clone()),
        ),
    );
    ctx.push(
        (
            String::from_str("title_bg_colour"),
            TemplateValue::Text(input.title_bg_colour.as_ref().unwrap().clone()),
        ),
    );
    ctx.push(
        (
            String::from_str("text_colour"),
            TemplateValue::Text(input.text_colour.as_ref().unwrap().clone()),
        ),
    );
    ctx.push(
        (
            String::from_str("text_bg_colour"),
            TemplateValue::Text(input.text_bg_colour.as_ref().unwrap().clone()),
        ),
    );
    ctx.push(
        (
            String::from_str("padding_horizontal"),
            TemplateValue::Text(input.padding_horizontal.as_ref().unwrap().clone()),
        ),
    );
    ctx.push(
        (
            String::from_str("padding_vertical"),
            TemplateValue::Text(input.padding_vertical.as_ref().unwrap().clone()),
        ),
    );
    match icon_path {
        Some(path) => {
            ctx.push((String::from_str("icon"), TemplateValue::Flag(true)));
            let mut icon_title = input.icon.as_ref().unwrap().clone();
            icon_title.append(" icon");
            ctx.push((String::from_str("icon_title"), TemplateValue::Text(icon_title)));
            ctx.push((String::from_str("icon_path"), TemplateValue::Text(path.clone())));
            ctx.push(
                (
                    String::from_str("icon_colour"),
                    TemplateValue::Text(input.icon_colour.as_ref().unwrap().clone()),
                ),
            );
            ctx.push(
                (
                    String::from_str("icon_scale"),
                    TemplateValue::Text(input.icon_scale.as_ref().unwrap().clone()),
                ),
            );
        },
        None => {},
    }
    proof {
        assert(ctx_view(ctx@) =~= render_context(
            input@,
            title_box@,
            text_box.deep_view(),
            icon_path.deep_view(),
        ));
    }
    ctx
}

// ---------------------------------------------------------------------------
// Rendering
// ---------------------------------------------------------------------------

/// The synthetic request behind the error badge: titled `error`, the
/// message as its text, the title background on the fixed alert colour,
/// everything else left to the defaults.
pub open spec fn error_badge_request(msg: Seq<char>) -> BadgeModel {
    BadgeModel {
        title: "error"@,
        text: Some(msg),
        title_colour: None,
        text_colour: None,
        title_bg_colour: Some("#c0392b"@),
        text_bg_colour: None,
        font_face: None,
        font_size: None,
        padding_horizontal: None,
        padding_vertical: None,
        icon: None,
        icon_colour: None,
        icon_scale: None,
    }
}

impl Factory {
    /// Renders a badge: normalizes the request, measures its segments,
    /// composes the render context and hands it to the template engine.
    /// Fails exactly with the first normalization error when one stage
    /// refuses the request; with `LayoutFailed` exactly when the metrics
    /// dataset lacks the normalized face/size pair; and with `RenderFailed`
    /// when the template engine refuses the render.
    pub fn render_svg(&self, input: SvgBadgeInput) -> (r: Result<String, BadgeError>)
        requires
            self.wf(),
        ensures
            ({
                let nm = normalize_result(input@, self@);
                match nm.1 {
                    Some(k) => r matches Err(e) && e@ == k,
                    None => {
                        if !ext::dataset_fonts(self.spec_dataset()).contains(
                            (nm.0.font_face.unwrap(), nm.0.font_size.unwrap()),
                        ) {
                            r matches Err(e) && e@ is LayoutFailed
                        } else {
                            match r {
                                Ok(_) => true,
                                Err(e) => e@ is RenderFailed,
                            }
                        }
                    },
                }
            }),
    {
        let mut input = input;
        match input.validate_n_populate(self) {
            Err(e) => {
                return Err(e);
            },
            Ok(()) => {},
        }
        if !ext::dataset_has_font(
            &self.opts.render_dataset,
            input.font_face.as_ref().unwrap().as_str(),
            input.font_size.as_ref().unwrap().as_str(),
        ) {
            return Err(BadgeError::LayoutFailed);
        }
        let title_box = ext::measure(
            &self.opts.render_dataset,
            input.title.as_str(),
            input.font_face.as_ref().unwrap().as_str(),
            input.font_size.as_ref().unwrap().as_str(),
        );
        let text_box: Option<TextBox> = match &input.text {
            Some(t) => ext::measure(
                &self.opts.render_dataset,
                t.as_str(),
                input.font_face.as_ref().unwrap().as_str(),
                input.font_size.as_ref().unwrap().as_str(),
            ),
            None => None,
        };
        let title_box = match title_box {
            Some(b) => b,
            None => {
                return Err(BadgeError::LayoutFailed);
            },
        };
        if input.text.is_some() && text_box.is_none() {
            return Err(BadgeError::LayoutFailed);
        }
        let icon_path: Option<String> = match &input.icon {
            Some(name) => ext::icon_path(name.as_str()),
            None => None,
        };
        let ctx = compose_context(&input, &title_box, &text_box, &icon_path);
        match ext::render_template(self.opts.svg_template.as_str(), &ctx) {
            Ok(svg) => Ok(svg),
            Err(_engine_message) => Err(BadgeError::RenderFailed),
        }
    }

    /// Renders the error badge: exactly `error_badge_request(s@)` run
    /// through the same pipeline as any other request. Its normalization
    /// always succeeds, so what remains is `render_svg`'s behaviour on it:
    /// `LayoutFailed` exactly when the dataset lacks the default face/size
    /// pair, otherwise the rendered badge or `RenderFailed`.
    pub fn render_error_badge(&self, s: String) -> (r: Result<String, BadgeError>)
        requires
            self.wf(),
        ensures
            normalize_result(error_badge_request(s@), self@).1 is None,
            ({
                let nm = normalize_result(error_badge_request(s@), self@);
                if !ext::dataset_fonts(self.spec_dataset()).contains(
                    (nm.0.font_face.unwrap(), nm.0.font_size.unwrap()),
                ) {
                    r matches Err(e) && e@ is LayoutFailed
                } else {
                    match r {
                        Ok(_) => true,
                        Err(e) => e@ is RenderFailed,
                    }
                }
            }),
    {
        let req = SvgBadgeInput {
            title: String::from_str("error"),
            text: Some(s),
            title_colour: None,
            text_colour: None,
            title_bg_colour: Some(String::from_str("#c0392b")),
            text_bg_colour: None,
            font_face: None,
            font_size: None,
            padding_horizontal: None,
            padding_vertical: None,
            icon: None,
            icon_colour: None,
            icon_scale: None,
        };
        proof {
            assert(req@ =~= error_badge_request(s@));
            reveal_strlit("#c0392b");
            reveal_strlit("#fff");
            reveal_strlit("#000");
            let m1 = with_font(req@, self@);
            assert(self@.faces.contains(self@.faces[0]));
            assert(self@.sizes.contains(self@.sizes[0]));
            assert(font_supported(m1, self@));
            let m2 = with_colours(m1);
            assert(starts_hash("#c0392b"@));
            assert(starts_hash("#fff"@));
            assert(starts_hash("#000"@));
            assert(first_bad_colour(m2) is None);
            assert(normalize_result(req@, self@).1 is None);
        }
        self.render_svg(req)
    }
}

} // verus!
