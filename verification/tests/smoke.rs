use gg18_driver::session::{Algorithm, Session};

#[test]
fn it_works() {
    assert_eq!(2 + 2, 4);
    let session = Session::new(Algorithm::Gg18);
    assert_eq!(session.round(), 0);
}
