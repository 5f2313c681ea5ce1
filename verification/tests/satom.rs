use hexosynth::dsp::SAtom;
use std::sync::Arc;

fn bits(x: f32) -> u32 {
    x.to_bits()
}

#[test]
fn constructors_make_their_variant() {
    assert!(matches!(SAtom::str("abc"), SAtom::Str(s) if s == "abc"));
    assert!(matches!(SAtom::setting(-4), SAtom::Setting(-4)));
    assert!(matches!(SAtom::param(bits(0.5)), SAtom::Param(p) if p == bits(0.5)));
    let snippet = [1, 2, 3, 4, 5, 6, 7, 8];
    assert!(matches!(SAtom::micro(&snippet), SAtom::MicroSample(m) if m == snippet));
    let data = Arc::new(vec![bits(0.1), bits(0.2)]);
    match SAtom::audio("kick.wav", data.clone()) {
        SAtom::AudioSample((name, Some(d))) => {
            assert_eq!(name, "kick.wav");
            assert!(Arc::ptr_eq(&d, &data));
        }
        _ => panic!("not an audio sample"),
    }
    assert!(matches!(
        SAtom::audio_unloaded("kick.wav"),
        SAtom::AudioSample((name, None)) if name == "kick.wav"
    ));
}

#[test]
fn default_of_keeps_the_variant() {
    assert!(matches!(SAtom::str("abc").default_of(), SAtom::Str(s) if s.is_empty()));
    assert!(matches!(SAtom::setting(7).default_of(), SAtom::Setting(0)));
    assert!(matches!(SAtom::param(bits(0.7)).default_of(), SAtom::Param(0)));
    assert!(matches!(
        SAtom::micro(&[1, 2, 3, 4, 5, 6, 7, 8]).default_of(),
        SAtom::MicroSample(m) if m == [0; 8]
    ));
    assert!(matches!(
        SAtom::audio("a", Arc::new(vec![1, 2])).default_of(),
        SAtom::AudioSample((name, None)) if name.is_empty()
    ));
    assert!(matches!(
        SAtom::audio_unloaded("a").default_of(),
        SAtom::AudioSample((name, None)) if name.is_empty()
    ));
}

#[test]
fn only_a_param_is_continous() {
    assert!(SAtom::param(bits(0.3)).is_continous());
    assert!(!SAtom::setting(1).is_continous());
    assert!(!SAtom::str("x").is_continous());
    assert!(!SAtom::micro(&[0; 8]).is_continous());
    assert!(!SAtom::audio_unloaded("x").is_continous());
}

#[test]
fn i_of_each_variant() {
    assert_eq!(SAtom::setting(42).i(), 42);
    assert_eq!(SAtom::setting(-42).i(), -42);
    assert_eq!(SAtom::setting(i64::MIN).i(), i64::MIN);
    assert_eq!(SAtom::param(bits(3.99)).i(), 3);
    assert_eq!(SAtom::param(bits(-3.99)).i(), -3);
    assert_eq!(SAtom::param(bits(0.7)).i(), 0);
    assert_eq!(SAtom::param(bits(f32::NAN)).i(), 0);
    assert_eq!(SAtom::param(bits(f32::INFINITY)).i(), i64::MAX);
    assert_eq!(SAtom::str("12").i(), 0);
    assert_eq!(SAtom::micro(&[bits(5.0); 8]).i(), 0);
    assert_eq!(SAtom::audio_unloaded("x").i(), 0);
    assert_eq!(SAtom::audio("x", Arc::new(vec![bits(5.0)])).i(), 0);
}

#[test]
fn f_of_each_variant() {
    assert_eq!(f32::from_bits(SAtom::setting(42).f()), 42.0);
    assert_eq!(f32::from_bits(SAtom::setting(-3).f()), -3.0);
    assert_eq!(SAtom::setting(123456789).f(), (123456789_i64 as f32).to_bits());
    assert_eq!(SAtom::setting(i64::MAX).f(), (i64::MAX as f32).to_bits());
    assert_eq!(f32::from_bits(SAtom::param(bits(0.125)).f()), 0.125);
    assert_eq!(SAtom::param(0x7fc0_0001).f(), 0x7fc0_0001);
    assert_eq!(SAtom::str("12").f(), bits(0.0));
    assert_eq!(SAtom::micro(&[bits(5.0); 8]).f(), bits(0.0));
    assert_eq!(SAtom::audio_unloaded("x").f(), bits(0.0));
}

#[test]
fn clone_holds_the_same() {
    let data = Arc::new(vec![1, 2, 3]);
    let atoms = [
        SAtom::str("abc"),
        SAtom::setting(9),
        SAtom::param(bits(0.5)),
        SAtom::micro(&[1, 2, 3, 4, 5, 6, 7, 8]),
        SAtom::audio("a", data.clone()),
        SAtom::audio_unloaded("b"),
    ];
    for atom in &atoms {
        let copy = atom.clone();
        assert_eq!(format!("{:?}", copy), format!("{:?}", atom));
    }
    match atoms[4].clone() {
        SAtom::AudioSample((_, Some(d))) => assert!(Arc::ptr_eq(&d, &data)),
        _ => panic!("not an audio sample"),
    }
}

#[test]
fn a_sample_becomes_a_param() {
    assert!(matches!(SAtom::from(bits(0.75)), SAtom::Param(p) if p == bits(0.75)));
    let atom: SAtom = bits(-2.0).into();
    assert_eq!(f32::from_bits(atom.f()), -2.0);
    assert!(atom.is_continous());
}
