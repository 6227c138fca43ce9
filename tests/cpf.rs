use alpha_bank::cpf::validate_cpf;

const VALID: [&str; 4] = ["52998224725", "11144477735", "12345678909", "93541134780"];

#[test]
fn valid_numbers_pass() {
    for cpf in VALID {
        assert!(validate_cpf(cpf), "{cpf}");
    }
}

#[test]
fn punctuation_is_ignored() {
    assert!(validate_cpf("529.982.247-25"));
    assert!(validate_cpf(" 111.444.777-35 "));
}

#[test]
fn repeated_digits_are_rejected() {
    assert!(!validate_cpf("11111111111"));
    assert!(!validate_cpf("00000000000"));
    assert!(!validate_cpf("999.999.999-99"));
}

#[test]
fn wrong_length_is_rejected() {
    assert!(!validate_cpf(""));
    assert!(!validate_cpf("abc"));
    assert!(!validate_cpf("5299822472"));
    assert!(!validate_cpf("529982247250"));
}

#[test]
fn non_ascii_numerals_are_not_digits() {
    // Arabic-Indic digits are numeric but are not ASCII digits.
    assert!(!validate_cpf("٥٢٩٩٨٢٢٤٧٢٥"));
    assert!(validate_cpf("52998224725٣"));
}

#[test]
fn wrong_check_digits_are_rejected() {
    assert!(!validate_cpf("52998224715"));
    assert!(!validate_cpf("52998224724"));
}

#[test]
fn single_digit_changes_are_rejected() {
    for cpf in ["52998224725", "11144477735", "93541134780"] {
        let digits: Vec<u8> = cpf.bytes().collect();
        for k in 0..11 {
            for v in b'0'..=b'9' {
                if v == digits[k] {
                    continue;
                }
                let mut changed = digits.clone();
                changed[k] = v;
                let text = String::from_utf8(changed).unwrap();
                assert!(!validate_cpf(&text), "{text}");
            }
        }
    }
}

#[test]
fn coincidence_on_first_digit() {
    // 12345678909 and 22345678909 differ in their first digit only; the first
    // weighted sums leave remainders 0 and 1, which share the check digit 0.
    assert!(validate_cpf("12345678909"));
    assert!(validate_cpf("22345678909"));
}
