use murale::player::{
    context_params, parse_options, ContextParam, OptionEntry, PlayerAction, PlayerSetup,
    PropertyValue, UPDATE_SIGNAL,
};
use murale::release::Release;

fn setting(text: &str, key: &str, value: &str) -> OptionEntry<String> {
    OptionEntry::Setting {
        text: text.to_string(),
        key: key.to_string(),
        value: value.to_string(),
    }
}

fn invalid(text: &str) -> OptionEntry<String> {
    OptionEntry::Invalid { text: text.to_string() }
}

fn property(name: &str, value: &str) -> PlayerAction<String> {
    PlayerAction::SetProperty {
        name: name.to_string(),
        to: PropertyValue::Text(value.to_string()),
    }
}

#[test]
fn the_documented_options_are_read() {
    assert_eq!(
        parse_options("input-ipc-server=/tmp/murale.sock,volume=0"),
        vec![
            setting("input-ipc-server=/tmp/murale.sock", "input-ipc-server", "/tmp/murale.sock"),
            setting("volume=0", "volume", "0"),
        ]
    );
    assert_eq!(
        parse_options("input-ipc-server=/tmp/murale.sock"),
        vec![setting(
            "input-ipc-server=/tmp/murale.sock",
            "input-ipc-server",
            "/tmp/murale.sock"
        )]
    );
}

#[test]
fn white_space_and_empty_options_do_not_count() {
    assert_eq!(
        parse_options(" volume = 0 ,, \t,\u{a0}mute=\u{3000}yes\u{2028}, "),
        vec![setting("volume = 0", "volume", "0"), setting("mute=\u{3000}yes", "mute", "yes")]
    );
    assert_eq!(parse_options(""), vec![]);
    assert_eq!(parse_options(" , ,"), vec![]);
}

#[test]
fn only_the_first_equals_sign_separates() {
    assert_eq!(parse_options("vf=scale=w=10"), vec![setting("vf=scale=w=10", "vf", "scale=w=10")]);
    assert_eq!(parse_options("=x"), vec![setting("=x", "", "x")]);
    assert_eq!(parse_options("x="), vec![setting("x=", "x", "")]);
    assert_eq!(parse_options("="), vec![setting("=", "", "")]);
}

#[test]
fn options_without_equals_sign_are_invalid() {
    assert_eq!(
        parse_options("mute, volume=3,  größe "),
        vec![invalid("mute"), setting("volume=3", "volume", "3"), invalid("größe")]
    );
}

#[test]
fn options_of_joined_texts_are_joined() {
    let first = "a=1, b";
    let second = " c = 2 ,d=3";
    let mut both = parse_options(first);
    both.extend(parse_options(second));
    assert_eq!(parse_options(&format!("{first},{second}")), both);
}

#[test]
fn options_survive_being_written_again() {
    let options = parse_options(" a = 1 ,,b , c=2 ");
    let written: Vec<String> = options
        .iter()
        .map(|entry| match entry {
            OptionEntry::Setting { text, .. } => text.clone(),
            OptionEntry::Invalid { text } => text.clone(),
        })
        .collect();
    assert_eq!(written.join(","), "a = 1,b,c=2");
    assert_eq!(parse_options(&written.join(",")), options);
}

#[test]
fn the_script_without_options() {
    let setup = PlayerSetup::new(&None, "/v/wall.mp4");
    assert_eq!(setup.done, 0);
    assert_eq!(
        setup.script,
        vec![
            PlayerAction::Create,
            property("vo", "libmpv"),
            property("hwdec", "auto"),
            property("video-sync", "display-resample"),
            property("loop-file", "inf"),
            PlayerAction::SetProperty {
                name: "keepaspect".to_string(),
                to: PropertyValue::Flag(true),
            },
            PlayerAction::SetProperty {
                name: "panscan".to_string(),
                to: PropertyValue::Number(1),
            },
            property("background-color", "#00000000"),
            property("terminal", "no"),
            PlayerAction::CreateRenderContext,
            PlayerAction::WatchUpdates { signal: 1 },
            PlayerAction::LoadFile { path: "/v/wall.mp4".to_string() },
        ]
    );
}

#[test]
fn options_come_behind_the_properties_and_before_the_video() {
    let setup = PlayerSetup::new(&Some("hwdec=no,oops".to_string()), "v");
    assert_eq!(setup.script.len(), 14);
    assert_eq!(setup.script[8], property("terminal", "no"));
    assert_eq!(
        setup.script[9],
        PlayerAction::SetOption {
            text: "hwdec=no".to_string(),
            key: "hwdec".to_string(),
            value: "no".to_string(),
        }
    );
    assert_eq!(setup.script[10], PlayerAction::WarnInvalid { text: "oops".to_string() });
    assert_eq!(setup.script[11], PlayerAction::CreateRenderContext);
    assert_eq!(setup.script[13], PlayerAction::LoadFile { path: "v".to_string() });
}

#[test]
fn a_refused_option_is_a_warning() {
    let mut setup = PlayerSetup::new(&Some(" speed = x ".to_string()), "v");
    let mut warnings = Vec::new();
    while let Some(action) = setup.next() {
        let outcome = match action {
            PlayerAction::SetOption { .. } => Err("bad value".to_string()),
            _ => Ok(()),
        };
        if let Some(warning) = setup.advance(outcome).unwrap() {
            warnings.push(warning);
        }
    }
    assert_eq!(warnings, vec!["failed to set mpv option speed = x: bad value".to_string()]);
    assert_eq!(setup.done, setup.script.len());
}

#[test]
fn a_refused_property_is_final() {
    let mut setup = PlayerSetup::new(&None, "v");
    assert_eq!(setup.advance(Ok(())), Ok(None));
    assert_eq!(setup.next(), Some(&property("vo", "libmpv")));
    assert_eq!(setup.advance(Err("no vo".to_string())), Err("no vo".to_string()));
    assert_eq!(setup.done, 1);
}

#[test]
fn a_video_that_does_not_load_is_final() {
    let mut setup = PlayerSetup::new(&None, "v");
    while setup.done + 1 < setup.script.len() {
        assert_eq!(setup.advance(Ok(())), Ok(None));
    }
    assert_eq!(setup.next(), Some(&PlayerAction::LoadFile { path: "v".to_string() }));
    assert_eq!(setup.advance(Err("gone".to_string())), Err("gone".to_string()));
}

#[test]
fn the_render_context_gets_its_parameters_in_order() {
    assert_eq!(
        context_params("egl", 7u8),
        vec![
            ContextParam::OpenGl,
            ContextParam::ProcAddress { egl: "egl" },
            ContextParam::WaylandDisplay(7),
            ContextParam::Invalid,
        ]
    );
    assert_eq!(UPDATE_SIGNAL.to_ne_bytes(), 1u64.to_ne_bytes());
}

#[test]
fn a_failed_set_up_gives_back_what_it_made_last_first() {
    let mut setup = PlayerSetup::new(&Some("a=b,c".to_string()), "v");
    assert_eq!(setup.give_back(), vec![]);
    let context = setup.script.len() - 3;
    while setup.done < setup.script.len() {
        assert_eq!(setup.advance(Ok(())), Ok(None));
        if setup.done <= context {
            assert_eq!(setup.give_back(), vec![Release::Player]);
        } else {
            assert_eq!(setup.give_back(), vec![Release::RenderContext, Release::Player]);
        }
    }
    let mut refused = PlayerSetup::new(&None, "v");
    assert_eq!(refused.advance(Err("no player".to_string())), Err("no player".to_string()));
    assert_eq!(refused.give_back(), vec![]);
}
