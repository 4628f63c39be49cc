use gas_reactions::binary64::{finite, greater_or_equal, less_than, nan, NEG_INFINITY, ZERO};
use gas_reactions::engine::check_well_formed;
use gas_reactions::gas::{Gas, GasMixture};

fn b(x: f64) -> u64 {
    x.to_bits()
}

#[test]
fn order_matches_ieee() {
    let values = [
        f64::NEG_INFINITY,
        -1e300,
        -2.5,
        -1e-310,
        -0.0,
        0.0,
        1e-310,
        0.01,
        5.0,
        373.15,
        1e300,
        f64::INFINITY,
        f64::NAN,
        -f64::NAN,
    ];
    for x in values {
        for y in values {
            assert_eq!(greater_or_equal(b(x), b(y)), x >= y, "{} >= {}", x, y);
            assert_eq!(less_than(b(x), b(y)), x < y, "{} < {}", x, y);
        }
    }
}

#[test]
fn classification() {
    assert!(nan(b(f64::NAN)));
    assert!(!nan(b(f64::INFINITY)));
    assert!(!finite(b(f64::INFINITY)));
    assert!(!finite(b(f64::NAN)));
    assert!(finite(b(-0.0)));
    assert!(finite(b(f64::MAX)));
    assert_eq!(NEG_INFINITY, b(f64::NEG_INFINITY));
    assert_eq!(ZERO, b(0.0));
}

#[test]
fn well_formed_mixtures() {
    let mut m = GasMixture { gases: [0u64; 12], volume: b(1000.0), temperature: b(300.0) };
    assert!(check_well_formed(&m));
    m.gases[Gas::O2.index()] = b(-0.0);
    assert!(check_well_formed(&m));
    m.gases[Gas::O2.index()] = b(-1.0);
    assert!(!check_well_formed(&m));
    m.gases[Gas::O2.index()] = b(1.0);
    m.volume = b(0.0);
    assert!(!check_well_formed(&m));
    m.volume = b(1.0);
    m.temperature = b(f64::INFINITY);
    assert!(!check_well_formed(&m));
    m.temperature = b(0.0);
    assert!(check_well_formed(&m));
    assert_eq!(m.amount(Gas::O2), b(1.0));
}
