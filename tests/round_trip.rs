use wstp::{Error, Link, WSTKFUNC};

#[test]
fn test_intra_process_links() {
    let mut link = Link::new_loopback();

    link.put_i64(5).unwrap();
    assert_eq!(link.get_i64(), Ok(5));

    link.put_f64(3.1415f64.to_bits()).unwrap();
    assert_eq!(f64::from_bits(link.get_f64().unwrap()), 3.1415);

    link.put_raw_type(WSTKFUNC).unwrap();
    link.put_arg_count(2).unwrap();
    link.put_symbol("Sin").unwrap();
    link.put_f64(1.0f64.to_bits()).unwrap();

    assert_eq!(link.get_raw_type(), Ok(WSTKFUNC));
    assert_eq!(link.get_arg_count(), Ok(2));
    assert_eq!(link.get_symbol().unwrap(), b"Sin".to_vec());
    assert_eq!(link.get_f64().map(f64::from_bits), Ok(1.0));
    assert_eq!(link.get_i64(), Err(Error::NoData));
}

#[test]
fn scalar_round_trip() {
    let mut link = Link::new_loopback();
    assert_eq!(link.put_i64(5), Ok(()));
    assert_eq!(link.get_i64(), Ok(5));
    assert_eq!(link.put_i64(i64::MIN), Ok(()));
    assert_eq!(link.get_i64(), Ok(i64::MIN));
    assert_eq!(link.put_f64(3.1415f64.to_bits()), Ok(()));
    assert_eq!(link.get_f64(), Ok(3.1415f64.to_bits()));
}

#[test]
fn real_bit_patterns_pass_unchanged() {
    let mut link = Link::new_loopback();
    let nan = f64::NAN.to_bits();
    let inf = f64::NEG_INFINITY.to_bits();
    link.put_f64(nan).unwrap();
    link.put_f64(inf).unwrap();
    assert_eq!(link.get_f64(), Ok(nan));
    assert_eq!(link.get_f64(), Ok(inf));
}

#[test]
fn function_round_trip() {
    let mut link = Link::new_loopback();
    assert_eq!(link.put_function(Some("Sin"), 2), Ok(()));
    assert_eq!(link.put_f64(1.0f64.to_bits()), Ok(()));

    assert_eq!(link.get_raw_type(), Ok(WSTKFUNC));
    assert_eq!(link.get_arg_count(), Ok(2));
    assert_eq!(link.get_symbol(), Ok(b"Sin".to_vec()));
    assert_eq!(link.get_f64(), Ok(1.0f64.to_bits()));
    assert_eq!(link.get_raw_type(), Err(Error::NoData));
}

#[test]
fn list_of_three_integers() {
    let mut link = Link::new_loopback();
    link.put_function(Some("System`List"), 3).unwrap();
    link.put_i64(1).unwrap();
    link.put_i64(2).unwrap();
    link.put_i64(3).unwrap();

    assert_eq!(link.get_raw_type(), Ok(WSTKFUNC));
    assert_eq!(link.get_arg_count(), Ok(3));
    assert_eq!(link.get_symbol(), Ok(b"System`List".to_vec()));
    assert_eq!(link.get_i64(), Ok(1));
    assert_eq!(link.get_i64(), Ok(2));
    assert_eq!(link.get_i64(), Ok(3));
}

#[test]
fn anonymous_head_writes_no_symbol() {
    let mut link = Link::new_loopback();
    link.put_function(None, 1).unwrap();
    link.put_function(Some("Global`foo"), 1).unwrap();
    link.put_str("a").unwrap();
    link.put_str("b").unwrap();

    assert_eq!(link.get_raw_type(), Ok(WSTKFUNC));
    assert_eq!(link.get_arg_count(), Ok(1));
    // The next token is the inner function, not a head symbol.
    assert_eq!(link.get_symbol(), Err(Error::UnexpectedToken));
    assert_eq!(link.get_raw_type(), Ok(WSTKFUNC));
    assert_eq!(link.get_arg_count(), Ok(1));
    assert_eq!(link.get_symbol(), Ok(b"Global`foo".to_vec()));
    assert_eq!(link.get_str(), Ok(b"a".to_vec()));
    assert_eq!(link.get_str(), Ok(b"b".to_vec()));
    assert_eq!(link.get_str(), Err(Error::NoData));
}

#[test]
fn strings_travel_as_utf8_bytes() {
    let mut link = Link::new_loopback();
    link.put_str("").unwrap();
    link.put_str("héllo").unwrap();
    link.put_symbol("x").unwrap();
    assert_eq!(link.get_str(), Ok(Vec::new()));
    assert_eq!(link.get_str(), Ok("héllo".as_bytes().to_vec()));
    assert_eq!(link.get_str(), Err(Error::UnexpectedToken));
    assert_eq!(link.get_symbol(), Ok(b"x".to_vec()));
}

#[test]
fn integer_array_round_trip() {
    let mut link = Link::new_loopback();
    let data = [1i64, 2, 3, 4, 5, 6];
    assert_eq!(link.put_i64_array(&data, &[2, 3]), Ok(()));
    assert_eq!(link.get_i64_array(), Ok((data.to_vec(), vec![2, 3])));
}

#[test]
fn real_array_round_trip() {
    let mut link = Link::new_loopback();
    let data: Vec<u64> = [0.5f64, -1.25, 2.0].iter().map(|x| x.to_bits()).collect();
    assert_eq!(link.put_f64_array(&data, &[3, 1]), Ok(()));
    assert_eq!(link.get_i64_array(), Err(Error::UnexpectedToken));
    assert_eq!(link.get_f64_array(), Ok((data.clone(), vec![3, 1])));
}

#[test]
fn scalar_array_and_empty_array() {
    let mut link = Link::new_loopback();
    assert_eq!(link.put_i64_array(&[42], &[]), Ok(()));
    assert_eq!(link.put_i64_array(&[], &[4, 0, 7]), Ok(()));
    assert_eq!(link.get_i64_array(), Ok((vec![42], vec![])));
    assert_eq!(link.get_i64_array(), Ok((vec![], vec![4, 0, 7])));
}

#[test]
fn disjoint_links_do_not_interleave() {
    let mut a = Link::new_loopback();
    let mut b = Link::new_loopback();
    for i in 0..10i64 {
        a.put_i64(i).unwrap();
        b.put_i64(100 + i).unwrap();
    }
    b.put_symbol("done").unwrap();
    for i in 0..10i64 {
        assert_eq!(b.get_i64(), Ok(100 + i));
        assert_eq!(a.get_i64(), Ok(i));
    }
    assert_eq!(a.get_symbol(), Err(Error::NoData));
    assert_eq!(b.get_symbol(), Ok(b"done".to_vec()));
}
