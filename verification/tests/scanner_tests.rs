use din::scanner::{Category, Scanner, Token};

fn vecs_match<T: PartialEq>(a: &Vec<T>, b: &Vec<T>) -> bool {
    let matching = a.iter().zip(b.iter()).filter(|&(a, b)| a == b).count();
    matching == a.len() && matching == b.len()
}

#[test]
fn skip_space() {
    let input = "    7".chars().collect();
    let output = Scanner::skip_whitespace(input);
    let expected_output = "7".chars().collect();
    assert!(vecs_match(&output, &expected_output))
}

#[test]
fn skip_newline() {
    let input = "\n\n\n\n\n        7".chars().collect();
    let output = Scanner::skip_whitespace(input);
    let expected_output = "7".chars().collect();
    assert!(vecs_match(&output, &expected_output))
}

#[test]
fn simple() {
    let input = "9 + 8".chars().collect();
    let output = Scanner::scan(input);
    let expected_output = vec![
        Token { lexeme: Some(String::from("9")), category: Category::LiteralInt },
        Token { lexeme: Some(String::from("+")), category: Category::Plus },
        Token { lexeme: Some(String::from("8")), category: Category::LiteralInt },
    ];
    assert!(vecs_match(&output, &expected_output))
}

#[test]
fn simple_two() {
    let input = "90 + 80".chars().collect();
    let output = Scanner::scan(input);
    let expected_output = vec![
        Token { lexeme: Some(String::from("90")), category: Category::LiteralInt },
        Token { lexeme: Some(String::from("+")), category: Category::Plus },
        Token { lexeme: Some(String::from("80")), category: Category::LiteralInt },
    ];
    assert!(vecs_match(&output, &expected_output))
}

#[test]
fn complex() {
    let input = "2 + 3 * 5 - 8 / 3".chars().collect();
    let output = Scanner::scan(input);
    let expected_output = vec![
        Token { lexeme: Some(String::from("2")), category: Category::LiteralInt },
        Token { lexeme: Some(String::from("+")), category: Category::Plus },
        Token { lexeme: Some(String::from("3")), category: Category::LiteralInt },
        Token { lexeme: Some(String::from("*")), category: Category::Star },
        Token { lexeme: Some(String::from("5")), category: Category::LiteralInt },
        Token { lexeme: Some(String::from("-")), category: Category::Minus },
        Token { lexeme: Some(String::from("8")), category: Category::LiteralInt },
        Token { lexeme: Some(String::from("/")), category: Category::Slash },
        Token { lexeme: Some(String::from("3")), category: Category::LiteralInt },
    ];
    assert!(vecs_match(&output, &expected_output))
}

#[test]
fn complex_two() {
    let input = "22 + 33 * 55 - 88 / 33".chars().collect();
    let output = Scanner::scan(input);
    let expected_output = vec![
        Token { lexeme: Some(String::from("22")), category: Category::LiteralInt },
        Token { lexeme: Some(String::from("+")), category: Category::Plus },
        Token { lexeme: Some(String::from("33")), category: Category::LiteralInt },
        Token { lexeme: Some(String::from("*")), category: Category::Star },
        Token { lexeme: Some(String::from("55")), category: Category::LiteralInt },
        Token { lexeme: Some(String::from("-")), category: Category::Minus },
        Token { lexeme: Some(String::from("88")), category: Category::LiteralInt },
        Token { lexeme: Some(String::from("/")), category: Category::Slash },
        Token { lexeme: Some(String::from("33")), category: Category::LiteralInt },
    ];
    assert!(vecs_match(&output, &expected_output))
}

#[test]
fn complex_three() {
    let input = "\n        23 +\n        18 -\n        45 * 2\n        / 18\n        "
        .chars()
        .collect();
    let output = Scanner::scan(input);
    let expected_output = vec![
        Token { lexeme: Some(String::from("23")), category: Category::LiteralInt },
        Token { lexeme: Some(String::from("+")), category: Category::Plus },
        Token { lexeme: Some(String::from("18")), category: Category::LiteralInt },
        Token { lexeme: Some(String::from("-")), category: Category::Minus },
        Token { lexeme: Some(String::from("45")), category: Category::LiteralInt },
        Token { lexeme: Some(String::from("*")), category: Category::Star },
        Token { lexeme: Some(String::from("2")), category: Category::LiteralInt },
        Token { lexeme: Some(String::from("/")), category: Category::Slash },
        Token { lexeme: Some(String::from("18")), category: Category::LiteralInt },
    ];
    assert!(vecs_match(&output, &expected_output))
}
