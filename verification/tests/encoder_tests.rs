use somfy_cli::encoder::{encode_action_group, OpenClose};

// Identical input yields an identical request shape; a closure intent yields
// exactly one parameter: the percentage's decimal string form.
#[test]
fn test_encode_closure_parameters() {
    let g = encode_action_group(OpenClose::Closure(42), "dev-1".to_string());

    assert_eq!(g.actions.len(), 1);
    assert_eq!(g.actions[0].device_url, "dev-1");
    assert_eq!(g.actions[0].commands.len(), 1);
    assert_eq!(g.actions[0].commands[0].name, "setClosure");
    assert_eq!(g.actions[0].commands[0].parameters, vec!["42".to_string()]);
    assert_eq!(g.label, Some("setClosure dev-1".to_string()));
}

#[test]
fn test_encode_is_pure() {
    let g1 = encode_action_group(OpenClose::Closure(77), "io://1-2-3/4".to_string());
    let g2 = encode_action_group(OpenClose::Closure(77), "io://1-2-3/4".to_string());

    assert_eq!(g1.label, g2.label);
    assert_eq!(g1.actions[0].device_url, g2.actions[0].device_url);
    assert_eq!(g1.actions[0].commands[0].name, g2.actions[0].commands[0].name);
    assert_eq!(
        g1.actions[0].commands[0].parameters,
        g2.actions[0].commands[0].parameters
    );
}

#[test]
fn test_encode_open() {
    let g = encode_action_group(OpenClose::Open, "dev-42".to_string());

    assert_eq!(g.label, Some("open dev-42".to_string()));
    assert_eq!(g.actions.len(), 1);
    assert_eq!(g.actions[0].device_url, "dev-42");
    assert_eq!(g.actions[0].commands.len(), 1);
    assert_eq!(g.actions[0].commands[0].name, "open");
    assert!(g.actions[0].commands[0].parameters.is_empty());
}

#[test]
fn test_encode_close() {
    let g = encode_action_group(OpenClose::Close, "dev-9".to_string());

    assert_eq!(g.label, Some("close dev-9".to_string()));
    assert_eq!(g.actions[0].commands[0].name, "close");
    assert!(g.actions[0].commands[0].parameters.is_empty());
}

#[test]
fn test_command_names() {
    assert_eq!(OpenClose::Open.command_name(), "open");
    assert_eq!(OpenClose::Close.command_name(), "close");
    assert_eq!(OpenClose::Closure(5).command_name(), "setClosure");
}

// Out-of-range percentages pass through unchanged; boundary values render
// exactly.
#[test]
fn test_closure_percentage_boundaries() {
    let zero = encode_action_group(OpenClose::Closure(0), "d".to_string());
    assert_eq!(zero.actions[0].commands[0].parameters, vec!["0".to_string()]);

    let full = encode_action_group(OpenClose::Closure(100), "d".to_string());
    assert_eq!(full.actions[0].commands[0].parameters, vec!["100".to_string()]);

    let over = encode_action_group(OpenClose::Closure(255), "d".to_string());
    assert_eq!(over.actions[0].commands[0].parameters, vec!["255".to_string()]);
}
