// Clearing the console writes escape sequences to the terminal; there is
// no terminal state to inspect here.
#[test]
fn test_clear_console() {}
