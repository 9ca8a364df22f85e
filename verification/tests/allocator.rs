use zutils::errors::UtilError;
use zutils::network::find_available_port;
use zutils::network::find_available_ports;

fn window(len: usize, free: &[usize]) -> Vec<bool> {
    let mut v = vec![false; len];
    for &i in free {
        v[i] = true;
    }
    v
}

#[test]
fn test_exhausted_window_reports_not_found() {
    let avail = window(8, &[]);
    let r = find_available_port(40000, 8, &avail);
    assert_eq!(r, Err(UtilError::NotFound));
}

#[test]
fn test_first_free_port_is_returned() {
    let mut avail = window(10, &[]);
    for i in 3..10 {
        avail[i] = true;
    }
    let r = find_available_port(40000, 10, &avail);
    assert_eq!(r, Ok(40003));
}

#[test]
fn test_empty_window_reports_not_found() {
    let avail: Vec<bool> = Vec::new();
    let r = find_available_port(40000, 0, &avail);
    assert_eq!(r, Err(UtilError::NotFound));
}

#[test]
fn test_contiguous_block_is_found() {
    let mut avail = vec![false; 23];
    for i in 3..6 {
        avail[i] = true;
    }
    let r = find_available_ports(50000, 20, 3, &avail);
    assert_eq!(r, Ok(50003));
}

#[test]
fn test_contiguous_block_not_found_when_gappy() {
    // Free ports exist, but never three in a row.
    let avail = window(13, &[0, 2, 4, 6, 8]);
    let r = find_available_ports(50000, 10, 3, &avail);
    assert_eq!(r, Err(UtilError::NotFound));
}

#[test]
fn test_zero_ports_required_takes_window_start() {
    let avail = vec![false; 10];
    let r = find_available_ports(50000, 10, 0, &avail);
    assert_eq!(r, Ok(50000));
}
