use lucky_greeter::decimal::format_u32;
use lucky_greeter::output::{greeting_line, lucky_line, render_output, run, Config};
use lucky_greeter::rng::generate_lucky_number;

#[test]
fn test_lucky_number_in_range() {
    for _ in 0..100 {
        let num = generate_lucky_number();
        assert!(num >= 1 && num <= 100);
    }
}

#[test]
fn test_no_lucky_number_feature() {
    assert!(true);
}

#[test]
fn test_hello_output() {
    let out = run(&Config { print_alt: false, enable_random: false });
    assert_eq!(out, "Hello, world!\n");
}

#[test]
fn test_alt_output() {
    let out = run(&Config { print_alt: true, enable_random: false });
    assert_eq!(out, "42\n");
}

#[test]
fn test_random_output_has_lucky_line() {
    for print_alt in [false, true] {
        let out = run(&Config {
            print_alt,
            enable_random: true,
        });
        let greeting = if print_alt { "42\n" } else { "Hello, world!\n" };
        assert!(out.starts_with(greeting));
        let rest = &out[greeting.len()..];
        assert!(rest.starts_with("Your lucky number: "));
        assert!(rest.ends_with('\n'));
        let digits = &rest["Your lucky number: ".len()..rest.len() - 1];
        let n: u32 = digits.parse().expect("the lucky line must end in an integer");
        assert!((1..=100).contains(&n));
    }
}

#[test]
fn test_render_output_all_toggle_combinations() {
    let off = Config {
        print_alt: false,
        enable_random: false,
    };
    let alt = Config {
        print_alt: true,
        enable_random: false,
    };
    let random = Config {
        print_alt: false,
        enable_random: true,
    };
    let both = Config {
        print_alt: true,
        enable_random: true,
    };
    assert_eq!(render_output(&off, 7), "Hello, world!\n");
    assert_eq!(render_output(&alt, 7), "42\n");
    assert_eq!(render_output(&random, 7), "Hello, world!\nYour lucky number: 7\n");
    assert_eq!(render_output(&both, 100), "42\nYour lucky number: 100\n");
}

#[test]
fn test_greeting_line() {
    assert_eq!(greeting_line(false), "Hello, world!\n");
    assert_eq!(greeting_line(true), "42\n");
}

#[test]
fn test_lucky_line() {
    assert_eq!(lucky_line(1), "Your lucky number: 1\n");
    assert_eq!(lucky_line(42), "Your lucky number: 42\n");
    assert_eq!(lucky_line(100), "Your lucky number: 100\n");
}

#[test]
fn test_format_u32() {
    assert_eq!(format_u32(0), "0");
    assert_eq!(format_u32(7), "7");
    assert_eq!(format_u32(10), "10");
    assert_eq!(format_u32(42), "42");
    assert_eq!(format_u32(100), "100");
    assert_eq!(format_u32(1987), "1987");
    assert_eq!(format_u32(u32::MAX), "4294967295");
}
