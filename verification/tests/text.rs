use std::str::FromStr;

use hello_sonic_world::address::{find_greeting_address, salt};
use hello_sonic_world::context::Context;
use hello_sonic_world::pubkey::Pubkey;
use hello_sonic_world::rnp::{initialize, Initialize};
use hello_sonic_world::text::{
    decimal_string, greeted_line, greeting_log, greetings_from, greetings_from_line,
};

#[test]
fn numbers_are_written_in_decimal() {
    assert_eq!(decimal_string(0), "0");
    assert_eq!(decimal_string(7), "7");
    assert_eq!(decimal_string(9), "9");
    assert_eq!(decimal_string(10), "10");
    assert_eq!(decimal_string(1_234_567_890), "1234567890");
    assert_eq!(decimal_string(4_294_967_295), "4294967295");
    for n in (0u32..100_000).step_by(37) {
        assert_eq!(decimal_string(n), n.to_string());
    }
}

#[test]
fn greeted_line_reports_the_count() {
    assert_eq!(greeted_line(1), "Greeted 1 time(s)!");
    assert_eq!(greeted_line(20), "Greeted 20 time(s)!");
    assert_eq!(greeted_line(0), "Greeted 0 time(s)!");
}

#[test]
fn greeting_log_has_two_lines() {
    assert_eq!(
        greeting_log(305),
        vec!["Hello, Sonic World!".to_string(), "Greeted 305 time(s)!".to_string()]
    );
}

#[test]
fn program_line_is_built_from_the_key_text() {
    assert_eq!(greetings_from_line("abc"), "Greetings from: abc");
    assert_eq!(greetings_from_line(""), "Greetings from: ");
}

#[test]
fn program_names_itself_in_base_58() {
    let zero = Pubkey::new_from_array([0u8; 32]);
    assert_eq!(greetings_from(&zero), "Greetings from: 11111111111111111111111111111111");

    let name = "2xm1TFEVP9VVFyLEuSTf2BgkXDaAv6obu5GR1cBmj7xt";
    let id = Pubkey::new_from_array(anchor_lang::prelude::Pubkey::from_str(name).unwrap().to_bytes());
    let ctx = Context { program_id: id, accounts: Initialize {} };
    assert_eq!(initialize(&ctx), Ok(format!("Greetings from: {}", name)));
    assert_eq!(ctx.program_id, id);
}

#[test]
fn salt_spells_greeting() {
    assert_eq!(&salt(), b"greeting");
}

#[test]
fn address_is_the_one_the_ledger_derives() {
    let name = "FREdSFWyTgXXXXw2tsVZX9gv1HBGE1MLELVUDKbpGkm4";
    let outside_id = anchor_lang::prelude::Pubkey::from_str(name).unwrap();
    let id = Pubkey::new_from_array(outside_id.to_bytes());
    for byte in 0u8..16 {
        let user = Pubkey::new_from_array([byte; 32]);
        let (expected, bump) = anchor_lang::prelude::Pubkey::find_program_address(
            &[b"greeting", &[byte; 32]],
            &outside_id,
        );
        let found = find_greeting_address(&id, &user).unwrap();
        assert_eq!(found.0.to_bytes(), expected.to_bytes());
        assert_eq!(found.1, bump);
        assert_ne!(found.0, user);
        assert_ne!(found.0, id);
    }
}

#[test]
fn address_is_stable_and_differs_between_users() {
    let id = Pubkey::new_from_array([7u8; 32]);
    let mut seen: Vec<Pubkey> = Vec::new();
    for byte in 0u8..32 {
        let user = Pubkey::new_from_array([byte; 32]);
        let first = find_greeting_address(&id, &user).unwrap();
        let second = find_greeting_address(&id, &user).unwrap();
        assert_eq!(first, second);
        assert!(!seen.contains(&first.0));
        seen.push(first.0);
    }
}

#[test]
fn address_depends_on_the_program() {
    let user = Pubkey::new_from_array([1u8; 32]);
    let here = find_greeting_address(&Pubkey::new_from_array([7u8; 32]), &user).unwrap();
    let there = find_greeting_address(&Pubkey::new_from_array([8u8; 32]), &user).unwrap();
    assert_ne!(here.0, there.0);
}
