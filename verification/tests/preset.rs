use sqlite3_chromaprint::preset::Preset;

#[test]
fn the_first_preset_has_the_identifier_zero() {
    assert_eq!(Preset::test1().algorithm(), 0);
}

#[test]
fn the_first_preset_is_the_same_each_time() {
    assert_eq!(Preset::test1().algorithm(), Preset::test1().algorithm());
}
