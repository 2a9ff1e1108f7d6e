use vmm::cmdline::{Cmdline, CmdlineError};

#[test]
fn new_cmdline_is_empty() {
    let cl = Cmdline::new(100);
    assert_eq!(cl.as_str(), "");
    assert_eq!(cl.len(), 0);
    assert!(cl.is_empty());
    assert_eq!(cl.capacity(), 100);
}

#[test]
fn insert_str_joins_with_spaces() {
    let mut cl = Cmdline::new(100);
    assert!(cl.insert_str("noapic").is_ok());
    assert_eq!(cl.as_str(), "noapic");
    assert!(cl.insert_str("nopci").is_ok());
    assert_eq!(cl.as_str(), "noapic nopci");
    assert_eq!(cl.len(), 12);
    assert!(!cl.is_empty());
}

#[test]
fn insert_str_takes_text_with_spaces_and_equals() {
    let mut cl = Cmdline::new(100);
    assert!(cl.insert_str("console=ttyS0 reboot=k").is_ok());
    assert_eq!(cl.as_str(), "console=ttyS0 reboot=k");
}

#[test]
fn insert_str_of_nothing_adds_a_space_to_a_line_that_holds_text() {
    let mut cl = Cmdline::new(10);
    assert!(cl.insert_str("").is_ok());
    assert_eq!(cl.as_str(), "");
    assert!(cl.insert_str("a").is_ok());
    assert!(cl.insert_str("").is_ok());
    assert_eq!(cl.as_str(), "a ");
}

#[test]
fn insert_str_fills_a_line_to_its_capacity() {
    let mut cl = Cmdline::new(7);
    assert!(cl.insert_str("abc").is_ok());
    assert!(cl.insert_str("def").is_ok());
    assert_eq!(cl.as_str(), "abc def");
    assert_eq!(cl.len(), cl.capacity());
    assert_eq!(cl.insert_str(""), Err(CmdlineError::CommandLineOverflow));
    assert_eq!(cl.as_str(), "abc def");
}

#[test]
fn insert_str_overflow_leaves_line_unchanged() {
    // One byte below the capacity, then two bytes more.
    let mut cl = Cmdline::new(8);
    assert!(cl.insert_str("1234567").is_ok());
    assert_eq!(cl.len(), cl.capacity() - 1);
    assert_eq!(cl.insert_str("ab"), Err(CmdlineError::CommandLineOverflow));
    assert_eq!(cl.as_str(), "1234567");
}

#[test]
fn insert_str_into_empty_line_needs_no_room_for_a_space() {
    let mut cl = Cmdline::new(3);
    assert_eq!(cl.insert_str("abcd"), Err(CmdlineError::CommandLineOverflow));
    assert!(cl.insert_str("abc").is_ok());
    assert_eq!(cl.as_str(), "abc");
}

#[test]
fn insert_str_refuses_unprintable_text() {
    let mut cl = Cmdline::new(100);
    assert!(cl.insert_str("ok").is_ok());
    assert_eq!(cl.insert_str("bad\ntext"), Err(CmdlineError::InvalidAscii));
    assert_eq!(cl.insert_str("caf\u{e9}"), Err(CmdlineError::InvalidAscii));
    assert_eq!(cl.insert_str("nul\0"), Err(CmdlineError::InvalidAscii));
    assert_eq!(cl.insert_str("del\u{7f}"), Err(CmdlineError::InvalidAscii));
    assert_eq!(cl.as_str(), "ok");
}

#[test]
fn unprintable_text_is_refused_before_its_length_is_looked_at() {
    let mut cl = Cmdline::new(2);
    assert_eq!(cl.insert_str("far too long\n"), Err(CmdlineError::InvalidAscii));
}

#[test]
fn insert_joins_key_and_value() {
    let mut cl = Cmdline::new(100);
    assert!(cl.insert("a", "b").is_ok());
    assert_eq!(cl.as_str(), "a=b");
    assert!(cl.insert("c", "d").is_ok());
    assert_eq!(cl.as_str(), "a=b c=d");
    assert!(cl.insert("e", "").is_ok());
    assert_eq!(cl.as_str(), "a=b c=d e=");
}

#[test]
fn insert_refuses_bad_keys_and_values() {
    let mut cl = Cmdline::new(100);
    assert_eq!(cl.insert("a ", "b"), Err(CmdlineError::HasSpace));
    assert_eq!(cl.insert("a", "b "), Err(CmdlineError::HasSpace));
    assert_eq!(cl.insert("a=", "b"), Err(CmdlineError::HasEquals));
    assert_eq!(cl.insert("a", "b=c"), Err(CmdlineError::HasEquals));
    assert_eq!(cl.insert("a\t", "b"), Err(CmdlineError::InvalidAscii));
    assert_eq!(cl.insert("a", "b\u{80}"), Err(CmdlineError::InvalidAscii));
    // The key is looked at first, and a space is found before an equals sign.
    assert_eq!(cl.insert("a =", "\n"), Err(CmdlineError::HasSpace));
    assert_eq!(cl.insert("a", "= "), Err(CmdlineError::HasSpace));
    assert_eq!(cl.as_str(), "");
}

#[test]
fn insert_overflow_leaves_line_unchanged() {
    let mut cl = Cmdline::new(4);
    assert_eq!(cl.insert("hello", "world"), Err(CmdlineError::CommandLineOverflow));
    assert_eq!(cl.insert("a", "bcd"), Err(CmdlineError::CommandLineOverflow));
    assert!(cl.insert("a", "bc").is_ok());
    assert_eq!(cl.as_str(), "a=bc");
    assert_eq!(cl.insert("d", "e"), Err(CmdlineError::CommandLineOverflow));
    assert_eq!(cl.as_str(), "a=bc");
}

#[test]
fn to_bytes_with_nul_closes_the_line() {
    let mut cl = Cmdline::new(100);
    assert_eq!(cl.to_bytes_with_nul(), vec![0u8]);
    assert!(cl.insert_str("ab c").is_ok());
    assert_eq!(cl.to_bytes_with_nul(), vec![b'a', b'b', b' ', b'c', 0u8]);
}

#[test]
fn clone_of_a_cmdline_is_independent() {
    let mut cl = Cmdline::new(20);
    assert!(cl.insert_str("one").is_ok());
    let mut copy = cl.clone();
    assert!(copy.insert_str("two").is_ok());
    assert_eq!(cl.as_str(), "one");
    assert_eq!(copy.as_str(), "one two");
    assert_eq!(copy.capacity(), 20);
}

#[test]
fn cmdline_error_messages() {
    assert_eq!(
        CmdlineError::CommandLineCopy.message(),
        "Failed to copy the command line string to guest memory"
    );
    assert_eq!(CmdlineError::CommandLineOverflow.message(), "Command line string is too long");
    assert_eq!(
        CmdlineError::InvalidAscii.message(),
        "string contains non-printable ASCII character"
    );
    assert_eq!(CmdlineError::HasSpace.message(), "string contains a space");
    assert_eq!(CmdlineError::HasEquals.message(), "string contains an equals sign");
}
