use apex_kube_manager::quantity::{parse_cpu_quantity, parse_memory_quantity};

#[test]
fn cpu_millicores() {
    assert_eq!(parse_cpu_quantity("250m"), 250);
    assert_eq!(parse_cpu_quantity("-3m"), -3);
    assert_eq!(parse_cpu_quantity("m"), 0);
}

#[test]
fn cpu_nanocores() {
    assert_eq!(parse_cpu_quantity("1500000n"), 1);
    assert_eq!(parse_cpu_quantity("999999n"), 0);
    assert_eq!(parse_cpu_quantity("-2500000n"), -2);
}

#[test]
fn cpu_whole_cores() {
    assert_eq!(parse_cpu_quantity("2"), 2000);
    assert_eq!(parse_cpu_quantity("1.5"), 1000);
    assert_eq!(parse_cpu_quantity("0.5"), 0);
    assert_eq!(parse_cpu_quantity("4."), 4000);
    assert_eq!(parse_cpu_quantity("+3"), 3000);
    assert_eq!(parse_cpu_quantity("-1.9"), -1000);
}

#[test]
fn cpu_exponent_forms() {
    assert_eq!(parse_cpu_quantity("1e3"), 1000000);
    assert_eq!(parse_cpu_quantity("1E3"), 1000000);
    assert_eq!(parse_cpu_quantity("1e+2"), 100000);
    assert_eq!(parse_cpu_quantity("2.5e1"), 25000);
    assert_eq!(parse_cpu_quantity(".5e1"), 5000);
    assert_eq!(parse_cpu_quantity("15e-1"), 1000);
    assert_eq!(parse_cpu_quantity("1e-1"), 0);
    assert_eq!(parse_cpu_quantity("-1.5e2"), -150000);
    assert_eq!(parse_cpu_quantity("9e15"), 9000000000000000000);
    assert_eq!(parse_cpu_quantity("0e99999999999999999999999"), 0);
}

#[test]
fn cpu_bad_or_huge_exponents_give_zero() {
    assert_eq!(parse_cpu_quantity("1e"), 0);
    assert_eq!(parse_cpu_quantity("e3"), 0);
    assert_eq!(parse_cpu_quantity("1e3.5"), 0);
    assert_eq!(parse_cpu_quantity("1e16"), 0);
    assert_eq!(parse_cpu_quantity("1e99999999999999999999"), 0);
    assert_eq!(parse_cpu_quantity("1e-99999999999999999999"), 0);
    assert_eq!(parse_cpu_quantity("inf"), 0);
}

#[test]
fn cpu_surrounding_space_is_ignored() {
    assert_eq!(parse_cpu_quantity("  100m\n"), 100);
    assert_eq!(parse_cpu_quantity("\t2 "), 2000);
}

#[test]
fn cpu_unreadable_is_zero() {
    assert_eq!(parse_cpu_quantity(""), 0);
    assert_eq!(parse_cpu_quantity("abc"), 0);
    assert_eq!(parse_cpu_quantity("."), 0);
    assert_eq!(parse_cpu_quantity("1.2.3"), 0);
    assert_eq!(parse_cpu_quantity("99999999999999999"), 0);
}

#[test]
fn memory_binary_suffixes() {
    assert_eq!(parse_memory_quantity("16Gi"), 17179869184);
    assert_eq!(parse_memory_quantity("1024Mi"), 1073741824);
    assert_eq!(parse_memory_quantity("4Ki"), 4096);
    assert_eq!(parse_memory_quantity("2Ti"), 2199023255552);
}

#[test]
fn memory_decimal_suffixes() {
    assert_eq!(parse_memory_quantity("1k"), 1000);
    assert_eq!(parse_memory_quantity("3M"), 3000000);
    assert_eq!(parse_memory_quantity("2G"), 2000000000);
    assert_eq!(parse_memory_quantity("5T"), 5000000000000);
}

#[test]
fn memory_plain_bytes() {
    assert_eq!(parse_memory_quantity("512"), 512);
    assert_eq!(parse_memory_quantity(" 128974848 "), 128974848);
}

#[test]
fn memory_unreadable_or_too_large_is_zero() {
    assert_eq!(parse_memory_quantity("lots"), 0);
    assert_eq!(parse_memory_quantity("1.5Gi"), 0);
    assert_eq!(parse_memory_quantity("Mi"), 0);
    assert_eq!(parse_memory_quantity("9999999999Ti"), 0);
    assert_eq!(parse_memory_quantity("99999999999999999999"), 0);
}
