//! The elemental status engine on concrete values.

use arpg_core::elemental::{
    Element, ElementalStatus, fire_dot_amount, mastery_burst_params,
};

#[test]
fn eleven_applications_read_ten() {
    let mut s = ElementalStatus::new();
    for _ in 0..11 {
        s.apply_status(Element::Fire);
    }
    assert_eq!(s.fire_stacks, 10);
    assert_eq!(s.ice_stacks, 0);
    assert_eq!(s.lightning_stacks, 0);
}

#[test]
fn counters_are_independent() {
    let mut s = ElementalStatus::new();
    s.apply_status(Element::Fire);
    s.apply_status(Element::Ice);
    s.apply_status(Element::Ice);
    s.apply_status(Element::Lightning);
    assert_eq!(s.fire_stacks, 1);
    assert_eq!(s.ice_stacks, 2);
    assert_eq!(s.lightning_stacks, 1);
}

#[test]
fn ninth_to_tenth_stack_then_dot_then_single_burst() {
    let mut s = ElementalStatus::new();
    for _ in 0..9 {
        s.apply_status(Element::Fire);
    }
    assert_eq!(s.fire_stacks, 9);
    // no burn below the maximum
    assert_eq!(fire_dot_amount(&s, 16), 0);
    // one more successful proc maxes the counter
    s.apply_status(Element::Fire);
    assert_eq!(s.fire_stacks, 10);
    // next step the damage-over-time tick applies, scaled by elapsed time
    assert_eq!(fire_dot_amount(&s, 16), 4_800);
    assert_eq!(fire_dot_amount(&s, 32), 9_600);
    // with the mastery unlocked and the flag unset, exactly one burst
    assert!(s.mastery_trigger(Element::Fire, true));
    assert!(s.is_ignited);
    // the counter stays maxed, yet no further burst fires
    assert!(!s.mastery_trigger(Element::Fire, true));
    assert!(!s.mastery_trigger(Element::Fire, true));
    // and the burn keeps ticking
    assert_eq!(fire_dot_amount(&s, 16), 4_800);
}

#[test]
fn mastery_needs_the_node_and_max_stacks() {
    let mut s = ElementalStatus::new();
    for _ in 0..10 {
        s.apply_status(Element::Ice);
    }
    // maxed but no mastery node: nothing
    assert!(!s.mastery_trigger(Element::Ice, false));
    assert!(!s.is_frozen);
    // nine stacks with the node: nothing
    let mut t = ElementalStatus::new();
    for _ in 0..9 {
        t.apply_status(Element::Ice);
    }
    assert!(!t.mastery_trigger(Element::Ice, true));
    // maxed with the node: one burst
    assert!(s.mastery_trigger(Element::Ice, true));
    assert!(s.is_frozen);
}

#[test]
fn dominance_breaks_ties_fire_ice_lightning() {
    let mut s = ElementalStatus::new();
    assert_eq!(s.dominant_element(), None);
    s.apply_status(Element::Ice);
    assert_eq!(s.dominant_element(), Some(Element::Ice));
    s.apply_status(Element::Fire);
    // tie between fire and ice: fire wins
    assert_eq!(s.dominant_element(), Some(Element::Fire));
    s.apply_status(Element::Lightning);
    s.apply_status(Element::Lightning);
    assert_eq!(s.dominant_element(), Some(Element::Lightning));
    s.apply_status(Element::Ice);
    // tie between ice and lightning at two: ice wins
    assert_eq!(s.dominant_element(), Some(Element::Ice));
}

#[test]
fn zero_decay_keeps_stacks_forever() {
    let mut s = ElementalStatus::new();
    for _ in 0..10 {
        s.apply_status(Element::Fire);
    }
    for _ in 0..100 {
        s.decay(0);
    }
    assert_eq!(s.fire_stacks, 10);
}

#[test]
fn positive_decay_floors_at_zero() {
    let mut s = ElementalStatus::new();
    for _ in 0..3 {
        s.apply_status(Element::Lightning);
    }
    s.decay(2);
    assert_eq!(s.lightning_stacks, 1);
    s.decay(2);
    assert_eq!(s.lightning_stacks, 0);
    s.decay(2);
    assert_eq!(s.lightning_stacks, 0);
}

#[test]
fn burst_parameters_per_element() {
    assert_eq!(mastery_burst_params(Element::Fire), Some((60_000, 100_000, 10, 150)));
    assert_eq!(mastery_burst_params(Element::Ice), Some((80_000, 75_000, 10, 150)));
    assert_eq!(mastery_burst_params(Element::Lightning), None);
}
