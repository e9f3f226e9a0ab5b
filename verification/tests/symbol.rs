use aprs::symbol::from_table;
use aprs::Symbol;
use aprs::ALT_SYMBOL_TABLE;
use aprs::PRIMARY_SYMBOL_TABLE;

#[test]
fn test_symbol_from_table() {
    assert_eq!(Symbol::from_table(PRIMARY_SYMBOL_TABLE, 0x3f), Symbol::Server);
    assert_eq!(Symbol::from_table(ALT_SYMBOL_TABLE, 0x3f), Symbol::InfoKiosk);
}

#[test]
fn test_unknown_symbol() {
    assert_eq!(Symbol::from_table(ALT_SYMBOL_TABLE, 0xff), Symbol::Other);
}

#[test]
fn test_symbol_debug_format() {
    assert_eq!(format!("{:?}", Symbol::InfoKiosk), "InfoKiosk");
}

#[test]
fn test_known_pairs_primary() {
    assert_eq!(from_table(PRIMARY_SYMBOL_TABLE, 0x21), Symbol::Sheriff);
    assert_eq!(from_table(PRIMARY_SYMBOL_TABLE, 0x42), Symbol::Bbs);
    assert_eq!(from_table(PRIMARY_SYMBOL_TABLE, 0x5f), Symbol::WeatherStation);
    assert_eq!(from_table(PRIMARY_SYMBOL_TABLE, 0x70), Symbol::Dog);
}

#[test]
fn test_known_pairs_alternate() {
    assert_eq!(from_table(ALT_SYMBOL_TABLE, 0x21), Symbol::Emergency);
    assert_eq!(from_table(ALT_SYMBOL_TABLE, 0x25), Symbol::PowerPlant);
    assert_eq!(from_table(ALT_SYMBOL_TABLE, 0x5c), Symbol::GpsSymbol);
    assert_eq!(from_table(ALT_SYMBOL_TABLE, 0x7a), Symbol::OverlayedShelter);
}

#[test]
fn test_unassigned_printable_codes() {
    // The quote (0x22) and hash (0x23) codes name no icon in either table.
    assert_eq!(from_table(PRIMARY_SYMBOL_TABLE, 0x22), Symbol::Other);
    assert_eq!(from_table(ALT_SYMBOL_TABLE, 0x23), Symbol::Other);
    // Code 0x42 names an icon in the primary table only.
    assert_eq!(from_table(ALT_SYMBOL_TABLE, 0x42), Symbol::Other);
    // Code 0x7a names an icon in the alternate table only.
    assert_eq!(from_table(PRIMARY_SYMBOL_TABLE, 0x7a), Symbol::Other);
}

#[test]
fn test_classification_is_total() {
    // Every code byte classifies in both tables; nothing panics.
    for code in 0u8..=0xff {
        let _ = from_table(PRIMARY_SYMBOL_TABLE, code);
        let _ = from_table(ALT_SYMBOL_TABLE, code);
    }
}

#[test]
fn test_unknown_table_yields_other() {
    for table in 0u8..=0xff {
        if table == PRIMARY_SYMBOL_TABLE || table == ALT_SYMBOL_TABLE {
            continue;
        }
        assert_eq!(from_table(table, 0x3f), Symbol::Other);
    }
}

#[test]
fn test_codes_outside_printable_range_yield_other() {
    for code in 0u8..=0x20 {
        assert_eq!(from_table(PRIMARY_SYMBOL_TABLE, code), Symbol::Other);
        assert_eq!(from_table(ALT_SYMBOL_TABLE, code), Symbol::Other);
    }
    for code in 0x7bu8..=0xff {
        assert_eq!(from_table(PRIMARY_SYMBOL_TABLE, code), Symbol::Other);
        assert_eq!(from_table(ALT_SYMBOL_TABLE, code), Symbol::Other);
    }
}

#[test]
fn test_method_and_free_function_agree() {
    for code in 0u8..=0xff {
        assert_eq!(
            Symbol::from_table(PRIMARY_SYMBOL_TABLE, code),
            from_table(PRIMARY_SYMBOL_TABLE, code)
        );
        assert_eq!(
            Symbol::from_table(ALT_SYMBOL_TABLE, code),
            from_table(ALT_SYMBOL_TABLE, code)
        );
    }
}
