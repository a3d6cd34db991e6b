// Initializing SSL support is one of the native library's foreign entry
// points. The verified library keeps no foreign calls, so all this test
// can exercise under that name is that the crate links into a test binary.

#[test]
fn test_ssl_init() {
    let _ = libpq::INVALID_OID;
}
