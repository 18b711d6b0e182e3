use dotaudit::advisory_message;
use dotaudit::startup_advisories;
use dotaudit::xdg_recommended_at;
use dotaudit::xdg_var_count;
use dotaudit::xdg_var_name_at;

#[test]
fn advisory_table_lists_the_five_xdg_variables() {
    assert_eq!(xdg_var_count(), 5);
    let names: Vec<&str> = (0..5).map(xdg_var_name_at).collect();
    assert_eq!(
        names,
        vec![
            "XDG_DATA_HOME",
            "XDG_CONFIG_HOME",
            "XDG_STATE_HOME",
            "XDG_CACHE_HOME",
            "XDG_RUNTIME_DIR",
        ]
    );
    assert_eq!(xdg_recommended_at(0), "$HOME/.local/share");
    assert_eq!(xdg_recommended_at(4), "/run/user/$UID");
}

#[test]
fn advisory_message_text() {
    assert_eq!(
        advisory_message("XDG_DATA_HOME", "$HOME/.local/share"),
        "The $XDG_DATA_HOME environment variable is not set!\n\
         make sure to add it to your shell's configuration before setting \
         any of the other environment variables!\n\
         Recommended value: $HOME/.local/share\n"
    );
}

#[test]
fn no_advisories_when_everything_is_set() {
    let r = startup_advisories(&vec![true, true, true, true, true]);
    assert!(r.is_empty());
}

#[test]
fn one_advisory_per_unset_variable_in_order() {
    let r = startup_advisories(&vec![false, true, true, false, true]);
    assert_eq!(r.len(), 2);
    assert!(r[0].starts_with("The $XDG_DATA_HOME "));
    assert!(r[0].ends_with("Recommended value: $HOME/.local/share\n"));
    assert!(r[1].starts_with("The $XDG_CACHE_HOME "));
    assert!(r[1].ends_with("Recommended value: $HOME/.cache\n"));

    let all = startup_advisories(&vec![false, false, false, false, false]);
    assert_eq!(all.len(), 5);
    assert!(all[4].starts_with("The $XDG_RUNTIME_DIR "));
    assert!(all[4].ends_with("Recommended value: /run/user/$UID\n"));
}
