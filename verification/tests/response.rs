use imposter::error::{Error, IoKind, Part};
use imposter::http::{Response, Version};

#[test]
fn status_line_is_exact() {
    let r = Response::make(400, "Host");
    assert_eq!(r.status_line(), b"HTTP/1.1 400 Host\r\n\r\n".to_vec());
}

#[test]
fn default_response_is_200_ok() {
    let r: Response = Default::default();
    assert_eq!(r.status_line(), b"HTTP/1.1 200 OK\r\n\r\n".to_vec());
}

#[test]
fn bad_request_maps_to_400_with_part_name() {
    let r = Response::from_err(Error::BadRequest(Part::Host));
    assert_eq!(r.status_line(), b"HTTP/1.1 400 Host\r\n\r\n".to_vec());
    let r = Response::from_err(Error::BadRequest(Part::Method));
    assert_eq!(r.status_line(), b"HTTP/1.1 400 METHOD\r\n\r\n".to_vec());
    let r = Response::from_err(Error::BadRequest(Part::Path));
    assert_eq!(r.status_line(), b"HTTP/1.1 400 PATH\r\n\r\n".to_vec());
    let r = Response::from_err(Error::BadRequest(Part::Version));
    assert_eq!(r.status_line(), b"HTTP/1.1 400 VERSION\r\n\r\n".to_vec());
}

#[test]
fn timeout_maps_to_408() {
    let r = Response::from_err(Error::Io(IoKind::TimedOut));
    assert_eq!(r.status_line(), b"HTTP/1.1 408 Timeout\r\n\r\n".to_vec());
}

#[test]
fn other_io_maps_to_503() {
    let r = Response::from_err(Error::Io(IoKind::Other));
    assert_eq!(r.status_line(), b"HTTP/1.1 503 Unavailable\r\n\r\n".to_vec());
}

#[test]
fn parse_and_utf8_map_to_500() {
    let r = Response::from_err(Error::Parse);
    assert_eq!(r.status_line(), b"HTTP/1.1 500 Internal Server Error\r\n\r\n".to_vec());
    let r = Response::from_err(Error::Utf8);
    assert_eq!(r.status_line(), b"HTTP/1.1 500 Internal Server Error\r\n\r\n".to_vec());
}

#[test]
fn status_digits_cover_all_magnitudes() {
    let r = Response::new(Version::HTTP_2, 65535, "x");
    assert_eq!(r.status_line(), b"HTTP/2.0 65535 x\r\n\r\n".to_vec());
    let r = Response::new(Version::HTTP_3, 0, "");
    assert_eq!(r.status_line(), b"HTTP/3.0 0 \r\n\r\n".to_vec());
    let r = Response::new(Version::HTTP_09, 7, "ok");
    assert_eq!(r.status_line(), b"HTTP/0.9 7 ok\r\n\r\n".to_vec());
}
