use ibmtts_host32::request::RequestContext;

fn request(id: u16, params: &[i32], strings: &[u8]) -> Vec<u8> {
    let mut v = id.to_le_bytes().to_vec();
    for p in params {
        v.extend_from_slice(&p.to_le_bytes());
    }
    v.extend_from_slice(strings);
    v
}

#[test]
fn get_int_reads_each_parameter() {
    let data = request(6, &[7, -2, 0x1234_5678], b"");
    let ctx = RequestContext::new(&data);
    assert_eq!(ctx.get_int(0), 7);
    assert_eq!(ctx.get_int(1), -2);
    assert_eq!(ctx.get_int(2), 0x1234_5678);
}

#[test]
fn get_int_past_the_end_is_zero() {
    let data = request(6, &[7], b"");
    let ctx = RequestContext::new(&data);
    assert_eq!(ctx.get_int(1), 0);
    let partial = vec![6u8, 0, 1, 2, 3];
    assert_eq!(RequestContext::new(&partial).get_int(0), 0);
}

#[test]
fn get_short_keeps_low_sixteen_bits() {
    let data = request(1, &[0x1234_5678, 0x0001_8000, -1, 0x7fff], b"");
    let ctx = RequestContext::new(&data);
    assert_eq!(ctx.get_short(0), 0x5678);
    assert_eq!(ctx.get_short(1), -32768);
    assert_eq!(ctx.get_short(2), -1);
    assert_eq!(ctx.get_short(3), 0x7fff);
}

#[test]
fn get_string_returns_text_with_its_nul() {
    // strings start after the id and two parameters: offset 10
    let data = request(6, &[1, 10], b"hello\0world\0");
    let ctx = RequestContext::new(&data);
    assert_eq!(ctx.get_string(1), b"hello\0");
}

#[test]
fn get_string_without_nul_returns_the_rest() {
    let data = request(6, &[1, 10], b"abc");
    let ctx = RequestContext::new(&data);
    assert_eq!(ctx.get_string(1), b"abc");
}

#[test]
fn get_string_outside_the_packet_is_a_lone_nul() {
    let data = request(6, &[1, 100, -5], b"abc\0");
    let ctx = RequestContext::new(&data);
    assert_eq!(ctx.get_string(1), b"\0");
    assert_eq!(ctx.get_string(2), b"\0");
    // a missing parameter reads as offset 0: the id bytes, up to the first NUL
    assert_eq!(ctx.get_string(5), &data[0..2]);
}

#[test]
fn get_body_drops_the_id() {
    let data = vec![1u8, 0, b'e', b'c', b'i', 0];
    assert_eq!(RequestContext::new(&data).get_body(), b"eci\0");
}
