use atuin_theme::meaning::{Level, Meaning, MEANING_COUNT};

const ALL: [Meaning; 8] = [
    Meaning::AlertInfo,
    Meaning::AlertWarn,
    Meaning::AlertError,
    Meaning::Annotation,
    Meaning::Base,
    Meaning::Guidance,
    Meaning::Important,
    Meaning::Title,
];

#[test]
fn there_are_eight_roles_in_declared_order() {
    assert_eq!(MEANING_COUNT, 8);
    for (position, role) in ALL.iter().enumerate() {
        assert_eq!(role.index(), position);
        assert_eq!(Meaning::from_index(position), *role);
    }
}

#[test]
fn levels_project_onto_the_alert_roles() {
    assert_eq!(Level::Info.meaning(), Meaning::AlertInfo);
    assert_eq!(Level::Warn.meaning(), Meaning::AlertWarn);
    assert_eq!(Level::Error.meaning(), Meaning::AlertError);
}

#[test]
fn the_fallback_graph_has_three_edges() {
    assert_eq!(Meaning::Guidance.fallback(), Some(Meaning::AlertInfo));
    assert_eq!(Meaning::Annotation.fallback(), Some(Meaning::AlertInfo));
    assert_eq!(Meaning::Title.fallback(), Some(Meaning::Important));
    assert_eq!(Meaning::AlertInfo.fallback(), None);
    assert_eq!(Meaning::AlertWarn.fallback(), None);
    assert_eq!(Meaning::AlertError.fallback(), None);
    assert_eq!(Meaning::Base.fallback(), None);
    assert_eq!(Meaning::Important.fallback(), None);
}

#[test]
fn every_fallback_path_ends_within_the_number_of_roles() {
    for role in ALL {
        let mut current = role;
        let mut steps = 0;
        while let Some(next) = current.fallback() {
            current = next;
            steps += 1;
            assert!(steps <= MEANING_COUNT);
        }
    }
}

#[test]
fn names_are_in_camel_case() {
    assert_eq!(Meaning::AlertInfo.name(), "alertInfo");
    assert_eq!(Meaning::AlertWarn.name(), "alertWarn");
    assert_eq!(Meaning::AlertError.name(), "alertError");
    assert_eq!(Meaning::Annotation.name(), "annotation");
    assert_eq!(Meaning::Base.name(), "base");
    assert_eq!(Meaning::Guidance.name(), "guidance");
    assert_eq!(Meaning::Important.name(), "important");
    assert_eq!(Meaning::Title.name(), "title");
}

#[test]
fn names_read_back_as_their_roles() {
    for role in ALL {
        assert_eq!(Meaning::from_name(&role.name()), Some(role));
    }
}

#[test]
fn other_names_name_no_role() {
    for name in ["", "AlertInfo", "alertinfo", "alert_info", "Title", "title ", "colour"] {
        assert_eq!(Meaning::from_name(name), None, "for {:?}", name);
    }
}
