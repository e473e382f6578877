use eventqueue::token::Token;

#[test]
fn token_round_trip() {
    let token = Token::from(7usize);
    assert_eq!(usize::from(token), 7);

    let largest = Token::from(usize::MAX);
    assert_eq!(usize::from(largest), usize::MAX);

    assert_eq!(Token(42).0, 42);
}
