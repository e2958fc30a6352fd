use mensa_api::error::ParseError;
use mensa_api::price::{read_number, Decimal, Prices, Reading};
use mensa_api::text::chars_of;

fn plain(mantissa: u64, scale: u8) -> Decimal {
    Decimal { negative: false, mantissa, scale }
}

#[test]
fn three_amounts_with_currency_sign_and_commas() {
    let prices = Prices::parse("3,50/4,20/5,00 €").unwrap();
    assert_eq!(prices.students, plain(350, 2));
    assert_eq!(prices.employees, plain(420, 2));
    assert_eq!(prices.guests, plain(500, 2));
}

#[test]
fn noise_does_not_change_the_amounts() {
    let expected = Prices::parse("3.50/4.20/5.00").unwrap();
    assert_eq!(Prices::parse("3,50 € / 4,20 € / 5,00 €"), Ok(expected));
    assert_eq!(Prices::parse("€3,50/\t4.20\n/ 5,00€ "), Ok(expected));
    assert_eq!(Prices::try_from("3,50/4,20/5,00".to_string()), Ok(expected));
}

#[test]
fn forms_of_a_numeral() {
    let prices = Prices::parse("7/.5/-12.").unwrap();
    assert_eq!(prices.students, plain(7, 0));
    assert_eq!(prices.employees, plain(5, 1));
    assert_eq!(prices.guests, Decimal { negative: true, mantissa: 12, scale: 0 });
    let prices = Prices::parse("+0,05/001/18446744073709551615").unwrap();
    assert_eq!(prices.students, plain(5, 2));
    assert_eq!(prices.employees, plain(1, 0));
    assert_eq!(prices.guests, plain(u64::MAX, 0));
}

#[test]
fn parts_that_are_no_numbers_are_passed_over() {
    let prices = Prices::parse("frei/1/2/3/").unwrap();
    assert_eq!(prices.students, plain(1, 0));
    assert_eq!(prices.guests, plain(3, 0));
    assert!(Prices::parse("1 2/e/1/./2/info/3/1e/+").is_ok());
}

#[test]
fn a_number_is_never_passed_over() {
    for text in [
        "1/2/3/99999999999999999999",
        "99999999999999999999/1/2/3",
        "1/2/18446744073709551616/3",
        "1/2/3/1e3",
        "1/2/3/ 1.5E-3 ",
        "1/inf/2/3",
        "1/2/3/-Infinity",
        "NaN/1/2/3",
        "1/2/3/4",
    ] {
        assert_eq!(Prices::parse(text), Err(ParseError::MalformedPrice), "{text:?}");
    }
    let long_fraction = format!("1/2/3/0.{}", "0".repeat(256));
    assert_eq!(Prices::parse(&long_fraction), Err(ParseError::MalformedPrice));
    let fitting_fraction = format!("1/2/0.{}", "0".repeat(255));
    assert_eq!(Prices::parse(&fitting_fraction).map(|p| p.guests), Ok(plain(0, 255)));
}

#[test]
fn numbers_are_what_floating_point_notation_reads() {
    let samples = [
        "", "0", "7", "+7", "-7", "3.50", ".5", "5.", ".", "+", "-", "+.", "1.2.3", "1,5", "1 5",
        "1e3", "1E3", "1e+3", "1e-3", "1e", "1e+", "e3", ".e3", "1.e3", ".5e3", "1e3.0", "1e3e3",
        "1.2.3e4", "+1e5", "-.5E-10", "inf", "INF", "Inf", "+inf", "-inf", "infinity", "InFiNiTy",
        "infinit", "infinityy", "nan", "NaN", "-nan", "+NAN", "na", "nane", "in", "0x10", "1_000",
        "١٢٣", "1f", "1d", "١", "18446744073709551615", "18446744073709551616",
        "99999999999999999999999999999999999999999999", "1e999", "--1", "+-1", "1-", "1+",
        "İnf", "ınf", " 1", "1 ",
    ];
    for sample in samples {
        let reading = read_number(&chars_of(sample));
        assert_eq!(
            reading != Reading::NoNumber,
            sample.parse::<f32>().is_ok(),
            "{sample:?} read as {reading:?}"
        );
    }
    assert_eq!(read_number(&chars_of("-0.50")), Reading::Amount(Decimal { negative: true, mantissa: 50, scale: 2 }));
    assert_eq!(read_number(&chars_of("18446744073709551616")), Reading::Unfit);
    assert_eq!(read_number(&chars_of("inf")), Reading::Unfit);
    assert_eq!(read_number(&chars_of("frei")), Reading::NoNumber);
}

#[test]
fn amounts_are_the_numbers_that_floating_point_notation_reads() {
    let samples = [
        "0", "7", "+7", "-7", "3.50", ".5", "5.", "1e3", "1E3", "1e+3", "1e-3", "1.e3", ".5e3",
        "+1e5", "-.5E-10", "1.50e1", "1.5e+2", "12.5e-1", "0e7", "0.0e-7", "1e19", "123456e-3",
        "4.20", "2,50",
    ];
    for sample in samples {
        match read_number(&chars_of(sample)) {
            Reading::Amount(amount) => {
                let written: f32 = amount.to_text().parse().unwrap();
                let read: f32 = sample.parse().unwrap();
                assert_eq!(written, read, "{sample:?} read as {amount:?}");
            }
            other => assert!(sample.parse::<f32>().is_err(), "{sample:?} read as {other:?}"),
        }
    }
}

#[test]
fn numerals_with_an_exponent() {
    let read = |text: &str| read_number(&chars_of(text));
    assert_eq!(read("1e3"), Reading::Amount(plain(1000, 0)));
    assert_eq!(read("1.5E-3"), Reading::Amount(plain(15, 4)));
    assert_eq!(read("1.50e1"), Reading::Amount(plain(150, 1)));
    assert_eq!(read("1.5e+2"), Reading::Amount(plain(150, 0)));
    assert_eq!(read("-2.5e0"), Reading::Amount(Decimal { negative: true, mantissa: 25, scale: 1 }));
    assert_eq!(read("1e19"), Reading::Amount(plain(10_000_000_000_000_000_000, 0)));
    assert_eq!(read("1e20"), Reading::Unfit);
    assert_eq!(read("18446744073709551615e0"), Reading::Amount(plain(u64::MAX, 0)));
    assert_eq!(read("18446744073709551616e-1"), Reading::Unfit);
    assert_eq!(read("1e-255"), Reading::Amount(plain(1, 255)));
    assert_eq!(read("1e-256"), Reading::Unfit);
    assert_eq!(read("0e99999"), Reading::Amount(plain(0, 0)));
    assert_eq!(read("0e99999999999999999999"), Reading::Unfit);
    assert_eq!(read("1e"), Reading::NoNumber);
    let prices = Prices::parse("1/2/1e3").unwrap();
    assert_eq!(prices.guests, plain(1000, 0));
    assert_eq!(Prices::parse("35e-1 € / 4,2E0 / 0.5e1"), Prices::parse("3.5/4.2/5"));
}

#[test]
fn any_other_count_is_an_error() {
    for text in [
        "",
        "3,50",
        "3,50/4,20",
        "1/2/3/4",
        "a/b/c",
        "1//2",
        "1/2/.",
        "1/2/3.4.5",
        "1/2/+",
        "1/2/1e",
        "1/2/18446744073709551616",
        "1/2/1e20",
        "1/2/nan",
        "1 2 3",
    ] {
        assert_eq!(Prices::parse(text), Err(ParseError::MalformedPrice), "{text:?}");
    }
}

#[test]
fn default_prices_are_zero() {
    let zero = plain(0, 0);
    assert_eq!(Prices::default(), Prices { students: zero, employees: zero, guests: zero });
    assert_eq!(Decimal::zero(), zero);
}

#[test]
fn amounts_are_written_as_they_were_read() {
    assert_eq!(plain(350, 2).to_text(), "3.50");
    assert_eq!(plain(5, 2).to_text(), "0.05");
    assert_eq!(plain(5, 0).to_text(), "5");
    assert_eq!(plain(0, 0).to_text(), "0");
    assert_eq!(plain(0, 3).to_text(), "0.000");
    assert_eq!(Decimal { negative: true, mantissa: 1234, scale: 1 }.to_text(), "-123.4");
    let prices = Prices { students: plain(350, 2), employees: plain(42, 1), guests: plain(5, 0) };
    assert_eq!(prices.to_text(), "3.50/4.2/5");
    assert_eq!(Prices::parse(&prices.to_text()), Ok(prices));
    assert_eq!(Prices::parse(" 3,50 €/4,2€/\t5 "), Ok(prices));
    let extreme = Decimal { negative: true, mantissa: u64::MAX, scale: 255 };
    let text = format!("{0}/{0}/{0}", extreme.to_text());
    assert_eq!(Prices::parse(&text).map(|p| p.guests), Ok(extreme));
}
