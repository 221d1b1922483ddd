use midjourney_prompt::algorithm::Algorithm;
use midjourney_prompt::aspect::Aspect;
use midjourney_prompt::prompt::Prompt;

const ALGORITHMS: [Algorithm; 3] = [Algorithm::V3, Algorithm::Test, Algorithm::TestPhoto];

const ASPECTS: [Aspect; 6] = [
    Aspect::Square,
    Aspect::Portrait,
    Aspect::Landscape,
    Aspect::Tall,
    Aspect::Wide,
    Aspect::UltraWide,
];

#[test]
fn algorithm_names() {
    assert_eq!(Algorithm::V3.str(), "v3");
    assert_eq!(Algorithm::Test.str(), "test");
    assert_eq!(Algorithm::TestPhoto.str(), "testp");
}

#[test]
fn aspect_names() {
    assert_eq!(Aspect::Square.str(), "square");
    assert_eq!(Aspect::Portrait.str(), "portrait");
    assert_eq!(Aspect::Landscape.str(), "landscape");
    assert_eq!(Aspect::Tall.str(), "tall");
    assert_eq!(Aspect::Wide.str(), "wide");
    assert_eq!(Aspect::UltraWide.str(), "ultrawide");
}

#[test]
fn names_lead_back_to_their_items() {
    for a in ALGORITHMS {
        assert_eq!(Algorithm::from_name(a.str()), Some(a));
    }
    for a in ASPECTS {
        assert_eq!(Aspect::from_name(a.str()), Some(a));
    }
}

#[test]
fn unknown_names_lead_nowhere() {
    assert_eq!(Algorithm::from_name(""), None);
    assert_eq!(Algorithm::from_name("V3"), None);
    assert_eq!(Algorithm::from_name("v4"), None);
    assert_eq!(Algorithm::from_name("testphoto"), None);
    assert_eq!(Algorithm::from_name(" test"), None);
    assert_eq!(Aspect::from_name(""), None);
    assert_eq!(Aspect::from_name("Square"), None);
    assert_eq!(Aspect::from_name("ultra wide"), None);
    assert_eq!(Aspect::from_name("16:9"), None);
}

#[test]
fn aspect_ratios() {
    assert_eq!(Aspect::Square.wh(), None);
    assert_eq!(Aspect::Portrait.wh(), Some([2, 3]));
    assert_eq!(Aspect::Landscape.wh(), Some([3, 2]));
    assert_eq!(Aspect::Tall.wh(), Some([1, 2]));
    assert_eq!(Aspect::Wide.wh(), Some([16, 9]));
    assert_eq!(Aspect::UltraWide.wh(), Some([21, 9]));
}

#[test]
fn aspect_labels() {
    assert_eq!(Aspect::Square.aspect_string(), "square");
    assert_eq!(Aspect::Portrait.aspect_string(), "portrait 2:3");
    assert_eq!(Aspect::Landscape.aspect_string(), "landscape 3:2");
    assert_eq!(Aspect::Tall.aspect_string(), "tall 1:2");
    assert_eq!(Aspect::Wide.aspect_string(), "wide 16:9");
    assert_eq!(Aspect::UltraWide.aspect_string(), "ultrawide 21:9");
}

#[test]
fn aspect_flags() {
    let expected = ["", " --ar 2:3", " --ar 3:2", " --ar 1:2", " --ar 16:9", " --ar 21:9"];
    for (aspect, flag) in ASPECTS.iter().zip(expected) {
        let mut s = String::from("x");
        aspect.push_flag(&mut s);
        assert_eq!(s, format!("x{}", flag));
    }
}

#[test]
fn algorithm_flags() {
    let expected = ["", " --test", " --testp"];
    for (algorithm, flag) in ALGORITHMS.iter().zip(expected) {
        let mut s = String::from("x");
        algorithm.push_flag(&mut s);
        assert_eq!(s, format!("x{}", flag));
    }
}

#[test]
fn allowed_aspects_of_each_algorithm() {
    assert_eq!(Algorithm::V3.allowed_aspects(), &ASPECTS[..]);
    assert_eq!(Algorithm::Test.allowed_aspects(), &ASPECTS[..3]);
    assert_eq!(Algorithm::TestPhoto.allowed_aspects(), &ASPECTS[..3]);
}

#[test]
fn allows_agrees_with_allowed_aspects() {
    for algorithm in ALGORITHMS {
        for aspect in ASPECTS {
            assert_eq!(
                algorithm.allows(aspect),
                algorithm.allowed_aspects().contains(&aspect),
                "{:?} {:?}",
                algorithm,
                aspect
            );
        }
    }
}

#[test]
fn remap_on_every_pair() {
    for algorithm in ALGORITHMS {
        for aspect in ASPECTS {
            let expected = if algorithm == Algorithm::V3 {
                aspect
            } else {
                match aspect {
                    Aspect::Tall => Aspect::Portrait,
                    Aspect::Wide | Aspect::UltraWide => Aspect::Landscape,
                    other => other,
                }
            };
            let remapped = algorithm.remap(aspect);
            assert_eq!(remapped, expected, "{:?} {:?}", algorithm, aspect);
            assert!(algorithm.allows(remapped));
        }
    }
}

#[test]
fn switching_from_v3_to_test_turns_wide_into_landscape() {
    let mut p = Prompt::default();
    p.set_aspect(Aspect::Wide);
    p.set_algorithm(Algorithm::Test);
    assert_eq!(p.algorithm(), Algorithm::Test);
    assert_eq!(p.aspect(), Aspect::Landscape);
}

#[test]
fn switching_to_testp_turns_tall_into_portrait() {
    let mut p = Prompt::default();
    p.set_aspect(Aspect::Tall);
    p.set_algorithm(Algorithm::TestPhoto);
    assert_eq!(p.algorithm(), Algorithm::TestPhoto);
    assert_eq!(p.aspect(), Aspect::Portrait);
}

#[test]
fn switching_turns_ultrawide_into_landscape() {
    let mut p = Prompt::default();
    p.set_aspect(Aspect::UltraWide);
    p.set_algorithm(Algorithm::TestPhoto);
    assert_eq!(p.aspect(), Aspect::Landscape);
}

#[test]
fn square_survives_every_switch() {
    for from in ALGORITHMS {
        for to in ALGORITHMS {
            let mut p = Prompt::default();
            p.set_algorithm(from);
            p.set_aspect(Aspect::Square);
            p.set_algorithm(to);
            assert_eq!(p.algorithm(), to);
            assert_eq!(p.aspect(), Aspect::Square);
        }
    }
}

#[test]
fn switching_back_does_not_bring_the_old_aspect_back() {
    let mut p = Prompt::default();
    p.set_aspect(Aspect::Wide);
    p.set_algorithm(Algorithm::Test);
    p.set_algorithm(Algorithm::V3);
    assert_eq!(p.aspect(), Aspect::Landscape);
}

#[test]
fn an_aspect_set_by_hand_stays_until_the_algorithm_changes() {
    let mut p = Prompt::default();
    p.set_algorithm(Algorithm::Test);
    p.set_aspect(Aspect::Wide);
    assert_eq!(p.aspect(), Aspect::Wide);
    assert_eq!(p.command(), "/imagine prompt:  --ar 16:9 --test");
    p.set_algorithm(Algorithm::Test);
    assert_eq!(p.aspect(), Aspect::Landscape);
}
