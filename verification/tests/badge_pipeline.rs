use glyph_bbox::dataset::DataSet;
use metal_lion::badges::BadgeError;
use metal_lion::badges::Factory;
use metal_lion::badges::FactoryOptions;
use metal_lion::badges::StartupError;
use metal_lion::badges::SvgBadgeInput;

// A metrics dataset with two faces and two sizes in the registry, but glyph
// data only for the sans/11 pair: every glyph there measures 7 x 11 pixels.
const DATASET_JSON: &str = "{\"error\":null,\
\"config\":{\"font\":{\"faces\":[\"sans\",\"mono\"],\"sizes\":[\"11\",\"12\"]},\
\"char\":{\"offset\":0,\"range\":0},\"signals\":{\"offset\":0,\"range\":0}},\
\"data\":{\"sans\":{\"11\":{\"boxes\":[],\"signals\":{\"mean\":[7.0,11.0]}}}}}";

// A template for badges without an icon; the engine refuses unknown
// variables, so each shape gets a template of its own keys.
const PLAIN_TEMPLATE: &str = "{{ title }}|{{ text }}|{{ contains_text }}|\
{{ title_colour }}|{{ title_bg_colour }}|{{ text_colour }}|{{ text_bg_colour }}|\
{{ title_width }}x{{ title_height }}|{{ text_width }}x{{ text_height }}|\
{{ font_face }}/{{ font_size }}|{{ padding_horizontal }}|{{ padding_vertical }}";

const ICON_TEMPLATE: &str = "{{ title }}|{{ contains_text }}|{{ icon }}|\
{{ icon_title }}|{{ icon_scale }}|{{ icon_colour }}|{{ icon_path }}";

fn test_dataset() -> DataSet {
    DataSet::from_json_string(&DATASET_JSON.to_string())
}

fn test_factory(template: &str) -> Factory {
    match Factory::new(FactoryOptions {
        render_dataset: test_dataset(),
        host: "http://localhost:4352".to_string(),
        svg_template: template.to_string(),
    }) {
        Ok(f) => f,
        Err(_) => panic!("factory must build"),
    }
}

fn blank_input(title: &str) -> SvgBadgeInput {
    SvgBadgeInput {
        title: title.to_string(),
        text: None,
        title_colour: None,
        text_colour: None,
        title_bg_colour: None,
        text_bg_colour: None,
        font_face: None,
        font_size: None,
        padding_horizontal: None,
        padding_vertical: None,
        icon: None,
        icon_colour: None,
        icon_scale: None,
    }
}

#[test]
fn renders_title_and_text_with_defaults() {
    let factory = test_factory(PLAIN_TEMPLATE);
    let mut input = blank_input("Build");
    input.text = Some("Passing".to_string());
    let out = factory.render_svg(input).unwrap();
    assert_eq!(
        out,
        "Build|Passing|true|#fff|#000|#000|#fff|35x11|49x11|sans/11|5.5|1.375"
    );
}

#[test]
fn escapes_markup_in_title() {
    let factory = test_factory(PLAIN_TEMPLATE);
    let input = blank_input("A<B");
    let out = factory.render_svg(input).unwrap();
    assert!(out.contains("A&lt;B"));
    assert!(out.contains("|false|"));
    assert!(out.contains("|0x0|"));
}

#[test]
fn escapes_every_markup_character() {
    let factory = test_factory(PLAIN_TEMPLATE);
    let mut input = blank_input("a&b");
    input.text = Some("\"x\" <y> 'z'".to_string());
    let out = factory.render_svg(input).unwrap();
    assert!(out.contains("a&amp;b"));
    assert!(out.contains("&quot;x&quot; &lt;y&gt; &#x27;z&#x27;"));
}

#[test]
fn icon_badge_carries_icon_fields() {
    let factory = test_factory(ICON_TEMPLATE);
    let mut input = blank_input("Code");
    input.icon = Some("GitHub".to_string());
    let out = factory.render_svg(input).unwrap();
    assert!(out.starts_with("Code|false|true|GitHub icon|0.9|#fff|"));
    assert!(out.contains("M12 .297c-6.63"));
}

#[test]
fn icon_scale_supplied_is_kept() {
    let factory = test_factory(ICON_TEMPLATE);
    let mut input = blank_input("Code");
    input.icon = Some("GitHub".to_string());
    input.icon_scale = Some("0.5".to_string());
    input.icon_colour = Some("#123".to_string());
    let out = factory.render_svg(input).unwrap();
    assert!(out.contains("|0.5|#123|"));
}

#[test]
fn unknown_icon_is_rejected() {
    let factory = test_factory(ICON_TEMPLATE);
    let mut input = blank_input("Code");
    // This catalog release keys icons by title, so the slug form misses.
    input.icon = Some("github".to_string());
    assert_eq!(factory.render_svg(input), Err(BadgeError::InvalidIcon));
}

#[test]
fn unsupported_font_falls_back_to_error_badge() {
    let factory = test_factory(PLAIN_TEMPLATE);
    let mut input = blank_input("Build");
    input.font_face = Some("bogus".to_string());
    let err = match factory.render_svg(input) {
        Err(e) => e,
        Ok(_) => panic!("bogus face must be refused"),
    };
    assert_eq!(err, BadgeError::UnsupportedFont);
    assert_eq!(err.message(), "unsupported font");
    let badge = factory.render_error_badge(err.message()).unwrap();
    assert!(badge.contains("error|unsupported font|true|"));
    assert!(badge.contains("#c0392b"));
}

#[test]
fn unsupported_size_is_refused() {
    let factory = test_factory(PLAIN_TEMPLATE);
    let mut input = blank_input("Build");
    input.font_size = Some("13".to_string());
    assert_eq!(factory.render_svg(input), Err(BadgeError::UnsupportedFont));
}

#[test]
fn colour_defaults_are_filled() {
    let factory = test_factory(PLAIN_TEMPLATE);
    let mut input = blank_input("Build");
    assert_eq!(input.validate_n_populate(&factory), Ok(()));
    assert_eq!(input.title_colour, Some("#fff".to_string()));
    assert_eq!(input.title_bg_colour, Some("#000".to_string()));
    assert_eq!(input.text_colour, Some("#000".to_string()));
    assert_eq!(input.text_bg_colour, Some("#fff".to_string()));
    // No icon requested: no icon colour is invented.
    assert_eq!(input.icon_colour, None);
}

#[test]
fn invalid_colour_is_rejected_with_its_value() {
    let factory = test_factory(PLAIN_TEMPLATE);
    let mut input = blank_input("Build");
    input.text_bg_colour = Some("red".to_string());
    let r = input.validate_n_populate(&factory);
    assert_eq!(r, Err(BadgeError::InvalidColour("red".to_string())));
    match r {
        Err(e) => assert_eq!(e.message(), "invalid colour: red"),
        Ok(()) => panic!("colour must be refused"),
    }
}

#[test]
fn first_invalid_colour_wins() {
    let factory = test_factory(PLAIN_TEMPLATE);
    let mut input = blank_input("Build");
    input.title_colour = Some("red".to_string());
    input.text_colour = Some("blue".to_string());
    assert_eq!(
        input.validate_n_populate(&factory),
        Err(BadgeError::InvalidColour("red".to_string()))
    );
}

#[test]
fn icon_colour_follows_title_colour() {
    let factory = test_factory(ICON_TEMPLATE);
    let mut input = blank_input("Code");
    input.icon = Some("GitHub".to_string());
    input.title_colour = Some("#abc".to_string());
    assert_eq!(input.validate_n_populate(&factory), Ok(()));
    assert_eq!(input.icon_colour, Some("#abc".to_string()));
}

#[test]
fn font_defaults_use_first_entries() {
    let factory = test_factory(PLAIN_TEMPLATE);
    let mut input = blank_input("Build");
    assert_eq!(input.validate_n_populate(&factory), Ok(()));
    assert_eq!(input.font_face, Some("sans".to_string()));
    assert_eq!(input.font_size, Some("11".to_string()));
    assert_eq!(input.padding_horizontal, Some("5.5".to_string()));
    assert_eq!(input.padding_vertical, Some("1.375".to_string()));
}

#[test]
fn normalizing_a_populated_request_changes_nothing() {
    let factory = test_factory(PLAIN_TEMPLATE);
    let mut input = SvgBadgeInput {
        title: "Build".to_string(),
        text: Some("Passing".to_string()),
        title_colour: Some("#abc".to_string()),
        text_colour: Some("#def".to_string()),
        title_bg_colour: Some("#123".to_string()),
        text_bg_colour: Some("#456".to_string()),
        font_face: Some("mono".to_string()),
        font_size: Some("12".to_string()),
        padding_horizontal: Some("3".to_string()),
        padding_vertical: Some("2".to_string()),
        icon: None,
        icon_colour: None,
        icon_scale: None,
    };
    assert_eq!(input.validate_n_populate(&factory), Ok(()));
    assert_eq!(input.title, "Build");
    assert_eq!(input.text, Some("Passing".to_string()));
    assert_eq!(input.title_colour, Some("#abc".to_string()));
    assert_eq!(input.text_colour, Some("#def".to_string()));
    assert_eq!(input.title_bg_colour, Some("#123".to_string()));
    assert_eq!(input.text_bg_colour, Some("#456".to_string()));
    assert_eq!(input.font_face, Some("mono".to_string()));
    assert_eq!(input.font_size, Some("12".to_string()));
    assert_eq!(input.padding_horizontal, Some("3".to_string()));
    assert_eq!(input.padding_vertical, Some("2".to_string()));
    assert_eq!(input.icon, None);
    assert_eq!(input.icon_colour, None);
    assert_eq!(input.icon_scale, None);
}

#[test]
fn missing_metrics_fail_the_layout() {
    let factory = test_factory(PLAIN_TEMPLATE);
    let mut input = blank_input("Build");
    // The registry supports mono/11, but the dataset holds no glyph data
    // for that pair.
    input.font_face = Some("mono".to_string());
    let r = factory.render_svg(input);
    assert_eq!(r, Err(BadgeError::LayoutFailed));
    match r {
        Err(e) => assert_eq!(e.message(), "failed to render badge"),
        Ok(_) => panic!("missing metrics must be refused"),
    }
}

#[test]
fn template_errors_become_render_failed() {
    // The engine refuses unknown variables at render time.
    let factory = test_factory("{{ not_a_context_key }}");
    let input = blank_input("Build");
    assert_eq!(factory.render_svg(input), Err(BadgeError::RenderFailed));
}

#[test]
fn unparsable_template_stops_startup() {
    let r = Factory::new(FactoryOptions {
        render_dataset: test_dataset(),
        host: "http://localhost:4352".to_string(),
        svg_template: "{% if unclosed %}".to_string(),
    });
    assert_eq!(r.err(), Some(StartupError::BadTemplate));
}

#[test]
fn unusable_registry_stops_startup() {
    let empty_faces = "{\"error\":null,\
\"config\":{\"font\":{\"faces\":[],\"sizes\":[\"11\"]},\
\"char\":{\"offset\":0,\"range\":0},\"signals\":{\"offset\":0,\"range\":0}},\
\"data\":{}}";
    let r = Factory::new(FactoryOptions {
        render_dataset: DataSet::from_json_string(&empty_faces.to_string()),
        host: "h".to_string(),
        svg_template: PLAIN_TEMPLATE.to_string(),
    });
    assert_eq!(r.err(), Some(StartupError::BadRegistry));

    let odd_size = "{\"error\":null,\
\"config\":{\"font\":{\"faces\":[\"sans\"],\"sizes\":[\"11px\"]},\
\"char\":{\"offset\":0,\"range\":0},\"signals\":{\"offset\":0,\"range\":0}},\
\"data\":{}}";
    let r = Factory::new(FactoryOptions {
        render_dataset: DataSet::from_json_string(&odd_size.to_string()),
        host: "h".to_string(),
        svg_template: PLAIN_TEMPLATE.to_string(),
    });
    assert_eq!(r.err(), Some(StartupError::BadRegistry));
}

#[test]
fn malformed_metrics_rows_stop_startup() {
    // A fallback mean row with a single entry: measuring would index a
    // missing height, so the factory refuses the dataset at startup.
    let short_mean = "{\"error\":null,\
\"config\":{\"font\":{\"faces\":[\"sans\"],\"sizes\":[\"11\"]},\
\"char\":{\"offset\":0,\"range\":0},\"signals\":{\"offset\":0,\"range\":0}},\
\"data\":{\"sans\":{\"11\":{\"boxes\":[],\"signals\":{\"mean\":[7.0]}}}}}";
    let r = Factory::new(FactoryOptions {
        render_dataset: DataSet::from_json_string(&short_mean.to_string()),
        host: "h".to_string(),
        svg_template: PLAIN_TEMPLATE.to_string(),
    });
    assert_eq!(r.err(), Some(StartupError::BadRegistry));

    // A per-glyph box row with a single entry is refused the same way.
    let short_box = "{\"error\":null,\
\"config\":{\"font\":{\"faces\":[\"sans\"],\"sizes\":[\"11\"]},\
\"char\":{\"offset\":0,\"range\":0},\"signals\":{\"offset\":0,\"range\":0}},\
\"data\":{\"sans\":{\"11\":{\"boxes\":[[5.0]],\"signals\":{\"mean\":[7.0,11.0]}}}}}";
    let r = Factory::new(FactoryOptions {
        render_dataset: DataSet::from_json_string(&short_box.to_string()),
        host: "h".to_string(),
        svg_template: PLAIN_TEMPLATE.to_string(),
    });
    assert_eq!(r.err(), Some(StartupError::BadRegistry));
}

#[test]
fn registry_getters_and_membership() {
    let factory = test_factory(PLAIN_TEMPLATE);
    assert_eq!(factory.font_faces(), vec!["sans".to_string(), "mono".to_string()]);
    assert_eq!(factory.font_sizes(), vec!["11".to_string(), "12".to_string()]);
    assert_eq!(factory.default_font_face(), "sans");
    assert_eq!(factory.default_font_size(), "11");
    // Face and size are checked against their own lists independently:
    // a pairing never measured together still passes.
    assert!(factory.supports_font("sans".to_string(), "12".to_string()));
    assert!(factory.supports_font("mono".to_string(), "11".to_string()));
    assert!(!factory.supports_font("serif".to_string(), "11".to_string()));
    assert!(!factory.supports_font("sans".to_string(), "13".to_string()));
}

#[test]
fn empty_title_is_allowed() {
    let factory = test_factory(PLAIN_TEMPLATE);
    let out = factory.render_svg(blank_input("")).unwrap();
    assert!(out.starts_with("||false|#fff|"));
    assert!(out.contains("|0x0|0x0|"));
}

#[test]
fn endpoint_is_under_the_host() {
    let factory = test_factory(PLAIN_TEMPLATE);
    assert_eq!(factory.render_endpoint(), "http://localhost:4352/v1/badge.svg");
}
