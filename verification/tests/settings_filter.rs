use ffx_autosplitter::settings::Settings;
use ffx_autosplitter::splits::Splits;

#[test]
fn default_globals() {
    let s = Settings::default();
    assert!(s.start);
    assert!(s.split);
    assert!(!s.reset);
    assert!(s.remove_loads);
    assert!(s.count_encounters);
    assert!(!s.extended);
    assert!(!s.start_on_load);
    assert!(!s.reset_on_load);
}

#[test]
fn default_split_toggles() {
    let s = Settings::default();
    assert!(s.filter(Splits::Ammes));
    assert!(s.filter(Splits::Klikk));
    assert!(!s.filter(Splits::Valefor));
    assert!(!s.filter(Splits::ChocoboEater));
    assert!(s.filter(Splits::MrrSkip));
    assert!(!s.filter(Splits::Mrr));
    assert!(s.filter(Splits::YuYevon));
    assert!(!s.filter(Splits::Guards1));
    assert!(s.filter(Splits::Guards));
}

#[test]
fn filter_follows_its_field() {
    let mut s = Settings::default();
    assert!(!s.filter(Splits::Valefor));
    s.valefor = true;
    assert!(s.filter(Splits::Valefor));
    s.ammes = false;
    assert!(!s.filter(Splits::Ammes));
}
