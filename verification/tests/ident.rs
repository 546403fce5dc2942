use nekotatsu::ident::get_kotatsu_id;

#[test]
fn id_of_empty_texts_is_the_seed() {
    assert_eq!(get_kotatsu_id("", ""), 1125899906842597);
}

#[test]
fn id_of_danke_lock_on() {
    assert_eq!(get_kotatsu_id("DANKE", "lock-on"), 837652778770567995);
}

#[test]
fn id_runs_over_the_source_name_first() {
    assert_eq!(get_kotatsu_id("DANKE", "lock-on"), get_kotatsu_id("DANKElock", "-on"));
    assert_ne!(get_kotatsu_id("DANKE", "lock-on"), get_kotatsu_id("lock-on", "DANKE"));
}

#[test]
fn id_wraps_around() {
    assert_eq!(get_kotatsu_id("MANGADEX", "abc123"), -8278850605021820072);
    assert_eq!(get_kotatsu_id("MANGADEX", "/chapter/5"), 3412285390186183788);
}

#[test]
fn id_counts_characters_not_bytes() {
    assert_eq!(get_kotatsu_id("é", "日本"), -3351804022670237045);
}
