use atuin_theme::color::{color_from_lookup, from_string, hex_digit_value, hex_pair_value, hex_values, Color};

fn rgb(r: u8, g: u8, b: u8) -> Color {
    Color::Rgb { r, g, b }
}

const NO_HEX: &str = "Could not parse 3 hex values from string";
const NO_NAME: &str = "No such color in palette";

#[test]
fn hex_digits_have_their_values_in_both_cases() {
    assert_eq!(hex_digit_value('0'), Some(0));
    assert_eq!(hex_digit_value('9'), Some(9));
    assert_eq!(hex_digit_value('a'), Some(10));
    assert_eq!(hex_digit_value('f'), Some(15));
    assert_eq!(hex_digit_value('A'), Some(10));
    assert_eq!(hex_digit_value('F'), Some(15));
    assert_eq!(hex_digit_value('g'), None);
    assert_eq!(hex_digit_value('G'), None);
    assert_eq!(hex_digit_value('/'), None);
    assert_eq!(hex_digit_value(':'), None);
    assert_eq!(hex_digit_value('@'), None);
    assert_eq!(hex_digit_value('`'), None);
    assert_eq!(hex_digit_value('+'), None);
    assert_eq!(hex_digit_value('é'), None);
}

#[test]
fn hex_pairs_agree_with_the_standard_parser() {
    let candidates = [
        '0', '1', '9', 'a', 'f', 'A', 'F', 'g', 'z', '+', '-', ' ', '_', '#', 'é',
    ];
    for first in candidates {
        for second in candidates {
            let text: String = [first, second].iter().collect();
            assert_eq!(
                hex_pair_value(first, second),
                u8::from_str_radix(&text, 16).ok(),
                "for the pair {:?}",
                text
            );
        }
        let single: String = [first].iter().collect();
        assert_eq!(
            hex_digit_value(first),
            u8::from_str_radix(&single, 16).ok(),
            "for the single character {:?}",
            single
        );
    }
}

#[test]
fn hex_pair_formula_is_sixteen_times_high_plus_low() {
    assert_eq!(hex_pair_value('f', 'f'), Some(255));
    assert_eq!(hex_pair_value('1', '0'), Some(16));
    assert_eq!(hex_pair_value('a', 'B'), Some(171));
    assert_eq!(hex_pair_value('+', 'f'), Some(15));
    assert_eq!(hex_pair_value('f', '+'), None);
    assert_eq!(hex_pair_value('+', '+'), None);
}

#[test]
fn hex_values_take_two_characters_at_a_time() {
    assert_eq!(hex_values("#ff1122", 1), vec![255, 17, 34]);
    assert_eq!(hex_values("#ffaa112", 1), vec![255, 170, 17, 2]);
    assert_eq!(hex_values("#zzff", 1), vec![255]);
    assert_eq!(hex_values("#", 1), Vec::<u8>::new());
    assert_eq!(hex_values("0a", 0), vec![10]);
    assert_eq!(hex_values("0a", 2), Vec::<u8>::new());
}

#[test]
fn hex_strings_parse_to_their_bytes() {
    assert_eq!(from_string("#000000"), Ok(rgb(0, 0, 0)));
    assert_eq!(from_string("#ffffff"), Ok(rgb(255, 255, 255)));
    assert_eq!(from_string("#FFAA11"), Ok(rgb(255, 170, 17)));
    assert_eq!(from_string("#0a0B0c"), Ok(rgb(10, 11, 12)));
}

#[test]
fn groups_that_are_not_hex_are_dropped() {
    assert_eq!(from_string("#zzff1122"), Ok(rgb(255, 17, 34)));
    assert_eq!(from_string("#ff11zz22"), Ok(rgb(255, 17, 34)));
    assert_eq!(from_string("#ff1122zz"), Ok(rgb(255, 17, 34)));
    assert_eq!(from_string("#ff1122z"), Ok(rgb(255, 17, 34)));
    assert_eq!(from_string("#éaff1122"), Ok(rgb(255, 17, 34)));
    assert_eq!(from_string("#  ff1122 "), Ok(rgb(255, 17, 34)));
    // One more character in front shifts every group.
    assert_eq!(from_string("# ff1122"), Ok(rgb(241, 18, 2)));
}

#[test]
fn a_last_group_of_one_digit_counts() {
    assert_eq!(from_string("#ff112"), Ok(rgb(255, 17, 2)));
    assert_eq!(from_string("#ff11223"), Err(NO_HEX.to_string()));
}

#[test]
fn a_plus_sign_before_one_digit_is_read_as_the_standard_parser_reads_it() {
    assert_eq!(from_string("#+f+a+b"), Ok(rgb(15, 10, 11)));
    assert_eq!(from_string("#+f+a+"), Err(NO_HEX.to_string()));
}

#[test]
fn other_counts_than_three_are_refused() {
    for text in ["#", "#f", "#ff", "#ff11", "#ff112233", "#zzzzzz", "#-1-1-1", "#f f1 12 2"] {
        assert_eq!(from_string(text), Err(NO_HEX.to_string()), "for {:?}", text);
    }
}

#[test]
fn names_are_looked_up_exactly() {
    assert_eq!(from_string("white"), Ok(rgb(255, 255, 255)));
    assert_eq!(from_string("black"), Ok(rgb(0, 0, 0)));
    assert_eq!(from_string("khaki"), Ok(rgb(240, 230, 140)));
    assert_eq!(from_string("Brown"), Err(NO_NAME.to_string()));
    assert_eq!(from_string(" brown"), Err(NO_NAME.to_string()));
    assert_eq!(from_string("brown "), Err(NO_NAME.to_string()));
    assert_eq!(from_string("ff1122"), Err(NO_NAME.to_string()));
    assert_eq!(from_string("dark-gray"), Err(NO_NAME.to_string()));
}

#[test]
fn every_error_has_its_message() {
    assert_eq!(from_string(""), Err("Empty string".to_string()));
    assert_eq!(from_string("#12"), Err(NO_HEX.to_string()));
    assert_eq!(from_string("zomp"), Err(NO_NAME.to_string()));
}

#[test]
fn the_listed_names_have_the_listed_colours() {
    assert_eq!(from_string("saddlebrown"), Ok(rgb(139, 69, 19)));
    assert_eq!(from_string("darkorange"), Ok(rgb(255, 140, 0)));
    assert_eq!(from_string("gold"), Ok(rgb(255, 215, 0)));
    assert_eq!(from_string("brown"), Ok(rgb(165, 42, 42)));
    assert_eq!(from_string("yellowgreen"), Ok(rgb(154, 205, 50)));
    assert_eq!(from_string("cyan"), Ok(rgb(0, 255, 255)));
    assert_eq!(from_string("turquoise"), Ok(rgb(64, 224, 208)));
    assert_eq!(from_string("steelblue"), Ok(rgb(70, 130, 180)));
    assert_eq!(from_string("lightsteelblue"), Ok(rgb(176, 196, 222)));
    assert_eq!(from_string("teal"), Ok(rgb(0, 128, 128)));
}

#[test]
fn a_lookup_becomes_a_colour_or_a_message() {
    assert_eq!(color_from_lookup(Some((1, 2, 3))), Ok(rgb(1, 2, 3)));
    assert_eq!(color_from_lookup(None), Err(NO_NAME.to_string()));
}

#[test]
fn hex_form_is_lower_case_with_six_digits() {
    assert_eq!(rgb(255, 17, 34).to_hex_string(), Some("#ff1122".to_string()));
    assert_eq!(rgb(0, 0, 0).to_hex_string(), Some("#000000".to_string()));
    assert_eq!(rgb(10, 171, 9).to_hex_string(), Some("#0aab09".to_string()));
    assert_eq!(Color::Red.to_hex_string(), None);
    assert_eq!(Color::AnsiValue(7).to_hex_string(), None);
    assert_eq!(Color::Reset.to_hex_string(), None);
}

#[test]
fn hex_form_agrees_with_the_standard_formatter_for_every_byte() {
    for byte in 0..=255u8 {
        assert_eq!(
            rgb(byte, 255 - byte, byte / 2).to_hex_string(),
            Some(format!("#{:02x}{:02x}{:02x}", byte, 255 - byte, byte / 2))
        );
    }
}

#[test]
fn parsing_is_idempotent_through_the_hex_form() {
    for text in ["brown", "white", "teal", "#ff1122", "#+f+a+b", "#zz010203", "#ABCDEF"] {
        let parsed = from_string(text);
        assert!(parsed.is_ok(), "{:?} should parse", text);
        let hex = parsed.clone().unwrap().to_hex_string().unwrap();
        assert_eq!(from_string(&hex), parsed, "through {:?}", hex);
    }
}

#[test]
fn every_triple_reads_back_from_its_hex_form() {
    for high in 0..16u8 {
        for low in 0..16u8 {
            let byte = high * 16 + low;
            let color = rgb(byte, low, high);
            let hex = color.to_hex_string().unwrap();
            assert_eq!(from_string(&hex), Ok(color));
        }
    }
}
