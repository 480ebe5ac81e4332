use ufo_ipc::{ProtocolConstant, ProtocolError};

#[test]
fn it_works() {
    let result = 2 + 2;
    assert_eq!(result, 4);
}

#[test]
fn expect_accepts_the_constant_that_was_due() {
    assert_eq!(ProtocolConstant::Hello.expect(ProtocolConstant::Hello), Ok(()));
    assert_eq!(
        ProtocolConstant::Result.expect(ProtocolConstant::Hello),
        Err(ProtocolError::UnexpectedProtocolConstant {
            got: ProtocolConstant::Result,
            expected: ProtocolConstant::Hello,
        })
    );
}
