use mawari_orchestrator::config::decode_state;
use mawari_orchestrator::config::encode_state;
use mawari_orchestrator::config::format_index;
use mawari_orchestrator::config::parse_index;
use mawari_orchestrator::config::token_has_known_shape;
use mawari_orchestrator::config::validate_config;
use mawari_orchestrator::config::ConfigError;
use mawari_orchestrator::config::State;

fn state(index: usize, n1: &str, n2: &str) -> State {
    State {
        current_account_index: index,
        mawari_node_1_name: n1.to_string(),
        mawari_node_2_name: n2.to_string(),
    }
}

fn assert_same(a: &State, b: &State) {
    assert_eq!(a.current_account_index, b.current_account_index);
    assert_eq!(a.mawari_node_1_name, b.mawari_node_1_name);
    assert_eq!(a.mawari_node_2_name, b.mawari_node_2_name);
}

#[test]
fn state_round_trips() {
    let s = state(7, "fuzzy-abc-123", "fuzzy-xyz-456");
    let reloaded = decode_state(&encode_state(&s));
    assert_same(&s, &reloaded);
}

#[test]
fn names_with_newlines_round_trip() {
    // the counted framing carries any name content, delimiter included
    let s = state(2, "odd\nname", "back\\slash\n");
    let reloaded = decode_state(&encode_state(&s));
    assert_same(&s, &reloaded);
}

#[test]
fn zero_state_round_trips() {
    let s = state(0, "", "");
    let reloaded = decode_state(&encode_state(&s));
    assert_same(&s, &reloaded);
}

#[test]
fn large_index_round_trips() {
    let s = state(1_234_567, "a", "b");
    let reloaded = decode_state(&encode_state(&s));
    assert_same(&s, &reloaded);
}

#[test]
fn encode_frames_index_and_counted_names() {
    let s = state(42, "one", "three");
    assert_eq!(encode_state(&s), "42\n3\none5\nthree");
}

#[test]
fn corrupt_text_loads_as_default() {
    for text in [
        "",
        "garbage",
        "12\nonly-one-name\n",
        "not-a-number\n1\na1\nb",
        "-3\n1\na1\nb",
        "\n1\na1\nb",
        "99999999999999999999999999\n1\na1\nb",
        "1\n5\nab",
        "1\n2\nab",
        "1\n2\nab9\nxyz",
    ] {
        let s = decode_state(text);
        assert_same(&s, &State::default());
    }
}

#[test]
fn trailing_text_after_the_frame_is_ignored() {
    let s = decode_state("3\n5\nalpha4\nbetaleftover");
    assert_same(&s, &state(3, "alpha", "beta"));
}

#[test]
fn default_state_is_zero_valued() {
    let s = State::default();
    assert_eq!(s.current_account_index, 0);
    assert_eq!(s.mawari_node_1_name, "");
    assert_eq!(s.mawari_node_2_name, "");
}

#[test]
fn indexes_print_and_parse() {
    assert_eq!(format_index(0), "0");
    assert_eq!(format_index(907), "907");
    assert_eq!(parse_index("907"), Some(907));
    assert_eq!(parse_index("00123"), Some(123));
    assert_eq!(parse_index(""), None);
    assert_eq!(parse_index("12x"), None);
}

#[test]
fn empty_token_list_is_refused() {
    let r = validate_config(vec![]);
    assert_eq!(r.err(), Some(ConfigError::EmptyTokenList));
}

#[test]
fn non_empty_token_list_is_kept_in_order() {
    let tokens = vec!["ghp_one".to_string(), "github_pat_two".to_string()];
    let c = validate_config(tokens.clone()).ok().unwrap();
    assert_eq!(c.tokens, tokens);
}

#[test]
fn token_shapes_are_recognised() {
    assert!(token_has_known_shape("ghp_abcdef"));
    assert!(token_has_known_shape("github_pat_abcdef"));
    assert!(!token_has_known_shape("sk-123"));
    assert!(!token_has_known_shape(""));
}
