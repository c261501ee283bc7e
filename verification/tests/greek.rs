use greek_alphabet::ncs::GreekAlphabet;

fn all_letters() -> Vec<GreekAlphabet> {
    vec![
        GreekAlphabet::Alpha,
        GreekAlphabet::Beta,
        GreekAlphabet::Gamma,
        GreekAlphabet::Delta,
        GreekAlphabet::Epsilon,
        GreekAlphabet::Zeta,
        GreekAlphabet::Eta,
        GreekAlphabet::Theta,
        GreekAlphabet::Iota,
        GreekAlphabet::Kappa,
        GreekAlphabet::Lambda,
        GreekAlphabet::My,
        GreekAlphabet::Ny,
        GreekAlphabet::Xi,
        GreekAlphabet::Omicron,
        GreekAlphabet::Pi,
        GreekAlphabet::Rho,
        GreekAlphabet::Sigma,
        GreekAlphabet::Tau,
        GreekAlphabet::Ypsilon,
        GreekAlphabet::Phi,
        GreekAlphabet::Chi,
        GreekAlphabet::Psi,
        GreekAlphabet::Omega,
    ]
}

#[test]
fn from_char_sigma_and_latin() {
    assert_eq!(GreekAlphabet::from_char('Σ'), GreekAlphabet::Sigma);
    assert_eq!(GreekAlphabet::from_char('σ'), GreekAlphabet::Sigma);
    assert_eq!(GreekAlphabet::from_char('s'), GreekAlphabet::Empty);
}

#[test]
fn pi_letter_pair() {
    assert_eq!(GreekAlphabet::Pi.uppercase(), 'Π');
    assert_eq!(GreekAlphabet::Pi.lowercase(), 'π');
}

#[test]
fn psi_transcription() {
    assert_eq!(GreekAlphabet::Psi.transcription(), "ps");
    assert_eq!(GreekAlphabet::Psi.transcription_string(), String::from("ps"));
}

#[test]
fn transcription_table_entries() {
    assert_eq!(GreekAlphabet::Alpha.transcription(), "a");
    assert_eq!(GreekAlphabet::Epsilon.transcription(), "ĕ");
    assert_eq!(GreekAlphabet::Eta.transcription(), "ē");
    assert_eq!(GreekAlphabet::Theta.transcription(), "th");
    assert_eq!(GreekAlphabet::Iota.transcription(), "i, j");
    assert_eq!(GreekAlphabet::Omicron.transcription(), "ŏ");
    assert_eq!(GreekAlphabet::Ypsilon.transcription(), "y, ü");
    assert_eq!(GreekAlphabet::Phi.transcription(), "ph, f");
    assert_eq!(GreekAlphabet::Chi.transcription(), "ch");
    assert_eq!(GreekAlphabet::Omega.transcription(), "ō");
}

#[test]
fn describe_sigma() {
    assert_eq!(GreekAlphabet::Sigma.describe(), String::from("Sigma(Σ,σ)"));
}

#[test]
fn describe_every_letter_shape() {
    for l in all_letters() {
        let d = l.describe();
        let expected = format!("({},{})", l.uppercase(), l.lowercase());
        assert!(d.ends_with(&expected));
        assert!(d.chars().next().unwrap().is_ascii_uppercase());
    }
}

#[test]
fn add_omega_alpha_wraps() {
    assert_eq!(
        GreekAlphabet::Omega.add(GreekAlphabet::Alpha),
        GreekAlphabet::Alpha
    );
}

#[test]
fn subtract_alpha_beta_wraps() {
    assert_eq!(
        GreekAlphabet::Alpha.subtract(GreekAlphabet::Beta),
        GreekAlphabet::Psi
    );
}

#[test]
fn char_round_trip_every_letter() {
    for l in all_letters() {
        assert_eq!(GreekAlphabet::from_char(l.uppercase()), l);
        assert_eq!(GreekAlphabet::from_char(l.lowercase()), l);
    }
}

#[test]
fn ordinal_round_trip_every_letter() {
    for (i, l) in all_letters().into_iter().enumerate() {
        assert_eq!(l.to_u8() as usize, i + 1);
        assert_eq!(GreekAlphabet::from_u8(l.to_u8()), l);
    }
    assert_eq!(GreekAlphabet::Empty.to_u8(), 0);
    assert_eq!(GreekAlphabet::from_u8(0), GreekAlphabet::Empty);
}

#[test]
fn from_ordinal_out_of_range() {
    assert_eq!(GreekAlphabet::from_u8(0), GreekAlphabet::Empty);
    assert_eq!(GreekAlphabet::from_u8(25), GreekAlphabet::Empty);
    assert_eq!(GreekAlphabet::from_u8(255), GreekAlphabet::Empty);
    assert_eq!(GreekAlphabet::from_u16(0), GreekAlphabet::Empty);
    assert_eq!(GreekAlphabet::from_u16(255), GreekAlphabet::Empty);
    assert_eq!(GreekAlphabet::from_u16(60000), GreekAlphabet::Empty);
    assert_eq!(GreekAlphabet::from_u32(25), GreekAlphabet::Empty);
    assert_eq!(GreekAlphabet::from_u64(1 << 40), GreekAlphabet::Empty);
    assert_eq!(GreekAlphabet::from_u128(1 << 90), GreekAlphabet::Empty);
    assert_eq!(GreekAlphabet::from_usize(usize::MAX), GreekAlphabet::Empty);
    assert_eq!(GreekAlphabet::from_i8(0), GreekAlphabet::Empty);
    assert_eq!(GreekAlphabet::from_i8(-1), GreekAlphabet::Empty);
    assert_eq!(GreekAlphabet::from_i16(-300), GreekAlphabet::Empty);
    assert_eq!(GreekAlphabet::from_i16(300), GreekAlphabet::Empty);
    assert_eq!(GreekAlphabet::from_i32(25), GreekAlphabet::Empty);
    assert_eq!(GreekAlphabet::from_i64(-1), GreekAlphabet::Empty);
    assert_eq!(GreekAlphabet::from_i128(1 << 100), GreekAlphabet::Empty);
    assert_eq!(GreekAlphabet::from_isize(isize::MIN), GreekAlphabet::Empty);
}

#[test]
fn from_ordinal_every_width() {
    assert_eq!(GreekAlphabet::from_u8(16), GreekAlphabet::Pi);
    assert_eq!(GreekAlphabet::from_u16(16), GreekAlphabet::Pi);
    assert_eq!(GreekAlphabet::from_u32(16), GreekAlphabet::Pi);
    assert_eq!(GreekAlphabet::from_u64(16), GreekAlphabet::Pi);
    assert_eq!(GreekAlphabet::from_u128(16), GreekAlphabet::Pi);
    assert_eq!(GreekAlphabet::from_usize(16), GreekAlphabet::Pi);
    assert_eq!(GreekAlphabet::from_i8(16), GreekAlphabet::Pi);
    assert_eq!(GreekAlphabet::from_i16(16), GreekAlphabet::Pi);
    assert_eq!(GreekAlphabet::from_i32(16), GreekAlphabet::Pi);
    assert_eq!(GreekAlphabet::from_i64(16), GreekAlphabet::Pi);
    assert_eq!(GreekAlphabet::from_i128(16), GreekAlphabet::Pi);
    assert_eq!(GreekAlphabet::from_isize(16), GreekAlphabet::Pi);
    assert_eq!(GreekAlphabet::from_u8(1), GreekAlphabet::Alpha);
    assert_eq!(GreekAlphabet::from_u8(24), GreekAlphabet::Omega);
}

#[test]
fn to_ordinal_every_width() {
    assert_eq!(GreekAlphabet::Omega.to_u16(), 24u16);
    assert_eq!(GreekAlphabet::Omega.to_u32(), 24u32);
    assert_eq!(GreekAlphabet::Omega.to_u64(), 24u64);
    assert_eq!(GreekAlphabet::Omega.to_u128(), 24u128);
    assert_eq!(GreekAlphabet::Omega.to_usize(), 24usize);
    assert_eq!(GreekAlphabet::Omega.to_i8(), 24i8);
    assert_eq!(GreekAlphabet::Omega.to_i16(), 24i16);
    assert_eq!(GreekAlphabet::Omega.to_i32(), 24i32);
    assert_eq!(GreekAlphabet::Omega.to_i64(), 24i64);
    assert_eq!(GreekAlphabet::Omega.to_i128(), 24i128);
    assert_eq!(GreekAlphabet::Omega.to_isize(), 24isize);
    assert_eq!(GreekAlphabet::Empty.to_u32(), 0u32);
    assert_eq!(GreekAlphabet::Empty.to_i64(), 0i64);
}

#[test]
fn from_text_by_code_points() {
    assert_eq!(GreekAlphabet::from_text("Σ"), GreekAlphabet::Sigma);
    assert_eq!(GreekAlphabet::from_text("σ"), GreekAlphabet::Sigma);
    assert_eq!(GreekAlphabet::from_text("π"), GreekAlphabet::Pi);
    assert_eq!(GreekAlphabet::from_text("s"), GreekAlphabet::Empty);
    assert_eq!(GreekAlphabet::from_text(""), GreekAlphabet::Empty);
    assert_eq!(GreekAlphabet::from_text("ab"), GreekAlphabet::Empty);
    assert_eq!(GreekAlphabet::from_text("Σσ"), GreekAlphabet::Empty);
    assert_eq!(GreekAlphabet::from_text("αβγ"), GreekAlphabet::Empty);
}

#[test]
fn from_string_by_code_points() {
    assert_eq!(
        GreekAlphabet::from_string(String::from("π")),
        GreekAlphabet::Pi
    );
    assert_eq!(
        GreekAlphabet::from_string(String::from("")),
        GreekAlphabet::Empty
    );
    assert_eq!(
        GreekAlphabet::from_string(String::from("xy")),
        GreekAlphabet::Empty
    );
}

#[test]
fn cyclic_closure_every_pair() {
    for a in all_letters() {
        for b in all_letters() {
            assert_ne!(a.add(b), GreekAlphabet::Empty);
            assert_ne!(a.subtract(b), GreekAlphabet::Empty);
        }
    }
}

#[test]
fn add_agrees_with_ordinals() {
    for a in all_letters() {
        for b in all_letters() {
            let mut s = a.to_u8() + b.to_u8();
            if s > 24 {
                s -= 24;
            }
            assert_eq!(a.add(b), GreekAlphabet::from_u8(s));
        }
    }
}

#[test]
fn subtract_self_is_omega() {
    for a in all_letters() {
        assert_eq!(a.subtract(a), GreekAlphabet::Omega);
    }
}

#[test]
fn arithmetic_with_empty_uses_ordinal_zero() {
    assert_eq!(
        GreekAlphabet::Empty.add(GreekAlphabet::Alpha),
        GreekAlphabet::Alpha
    );
    assert_eq!(
        GreekAlphabet::Alpha.add(GreekAlphabet::Empty),
        GreekAlphabet::Alpha
    );
    assert_eq!(
        GreekAlphabet::Empty.add(GreekAlphabet::Empty),
        GreekAlphabet::Empty
    );
    assert_eq!(
        GreekAlphabet::Empty.subtract(GreekAlphabet::Alpha),
        GreekAlphabet::Psi
    );
    assert_eq!(
        GreekAlphabet::Alpha.subtract(GreekAlphabet::Empty),
        GreekAlphabet::Alpha
    );
}

#[test]
fn in_place_arithmetic() {
    let mut x = GreekAlphabet::Omega;
    x.add_assign(GreekAlphabet::Alpha);
    assert_eq!(x, GreekAlphabet::Alpha);
    x.sub_assign(GreekAlphabet::Beta);
    assert_eq!(x, GreekAlphabet::Psi);
}

#[test]
fn default_is_empty() {
    assert_eq!(GreekAlphabet::default(), GreekAlphabet::Empty);
}

#[test]
fn letter_pair_forms() {
    let pi = GreekAlphabet::Pi;
    assert_eq!(pi.letters(), ('Π', 'π'));
    assert_eq!(pi.letters_string(), (String::from("Π"), String::from("π")));
    assert_eq!(pi.letters_vec(), vec!['Π', 'π']);
    assert_eq!(
        pi.letters_vec_string(),
        vec![String::from("Π"), String::from("π")]
    );
    assert_eq!(pi.letters_array(), ['Π', 'π']);
    assert_eq!(
        pi.letters_array_string(),
        [String::from("Π"), String::from("π")]
    );
}

#[test]
fn character_and_text_forms() {
    assert_eq!(GreekAlphabet::Pi.to_char(), 'π');
    assert_eq!(GreekAlphabet::Pi.to_text(), String::from("π"));
    assert_eq!(GreekAlphabet::Omega.to_char(), 'ω');
}
