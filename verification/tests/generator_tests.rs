use blackout::generator::{
    generate, generate_passphrase, generate_random_chars, parse_wordlist, GeneratorConfig, GeneratorMode,
};

const SAMPLE_WORDLIST: &str = "11111\tabacus\n11112\tabdomen\n11113\tabdominal\n11114\tabide\n11115\tabiding\n11116\tability\n";

fn sample_words() -> Vec<String> {
    parse_wordlist(SAMPLE_WORDLIST)
}

#[test]
fn test_passphrase_generation() {
    let wordlist = sample_words();
    let res = generate_passphrase(
        &GeneratorConfig { word_count: 4, separator: '-', capitalize: true, ..Default::default() },
        &wordlist,
    )
    .unwrap();
    let split: Vec<&str> = res.split('-').collect();
    assert_eq!(split.len(), 4);

    for word in split {
        assert!(word.chars().next().unwrap().is_uppercase());
    }
}

#[test]
fn wordlist_takes_the_last_token_of_each_line() {
    let words = parse_wordlist("11111 abacus\r\n\n  \n22222\t  mid   last  \nsolo");
    assert_eq!(words, vec!["abacus".to_string(), "last".to_string(), "solo".to_string()]);
    assert!(parse_wordlist("").is_empty());
    assert_eq!(sample_words().len(), 6);
}

#[test]
fn random_chars_have_the_asked_length_and_classes() {
    let config = GeneratorConfig {
        mode: GeneratorMode::RandomChars,
        length: 40,
        uppercase: false,
        lowercase: false,
        numbers: true,
        symbols: false,
        ..Default::default()
    };
    let p = generate_random_chars(&config).unwrap();
    assert_eq!(p.chars().count(), 40);
    assert!(p.chars().all(|c| c.is_ascii_digit()));
}

#[test]
fn random_chars_without_classes_is_refused() {
    let config = GeneratorConfig {
        mode: GeneratorMode::RandomChars,
        uppercase: false,
        lowercase: false,
        numbers: false,
        symbols: false,
        ..Default::default()
    };
    assert_eq!(generate_random_chars(&config), Err("No charset selected!"));
    assert_eq!(generate(config, &sample_words()), Err("No charset selected!"));
}

#[test]
fn passphrase_without_words_is_refused() {
    let config = GeneratorConfig { word_count: 0, ..Default::default() };
    assert_eq!(
        generate(config, &sample_words()),
        Err("A contagem de palavras deve ser maior que zero.")
    );
}

#[test]
fn passphrase_words_come_from_the_list() {
    let wordlist = sample_words();
    let config = GeneratorConfig { word_count: 6, capitalize: false, separator: '.', ..Default::default() };
    let p = generate(config, &wordlist).unwrap();
    let parts: Vec<&str> = p.split('.').collect();
    assert_eq!(parts.len(), 6);
    for part in parts {
        assert!(wordlist.iter().any(|w| w == part));
    }
}

#[test]
fn default_settings_give_five_capitalized_words() {
    let p = generate(GeneratorConfig::default(), &sample_words()).unwrap();
    let parts: Vec<&str> = p.split('_').collect();
    assert_eq!(parts.len(), 5);
    assert!(parts.iter().all(|w| w.starts_with('A')));
}

#[test]
fn mode_from_menu_index() {
    assert_eq!(GeneratorMode::from_index(0), GeneratorMode::RandomChars);
    assert_eq!(GeneratorMode::from_index(1), GeneratorMode::Passphrase);
    assert_eq!(GeneratorMode::from_index(7), GeneratorMode::Passphrase);
}
