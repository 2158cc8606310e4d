use rtforth::memory::SystemVariables;

#[test]
fn test_systemvariable_conversion() {
    let null = 0x4211_54743;
    let base = 0xba5e;
    let expected = SystemVariables { null, base };
    let mut buffer = [0; 1024];
    expected.write(&mut buffer);
    let actual = SystemVariables::read(&buffer);
    assert_eq!(expected, actual);
}
