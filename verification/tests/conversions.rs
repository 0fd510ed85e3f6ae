use caser::Case::{CamelCase, PascalCase, Sentence, SnakeCase};

#[test]
fn camel_to_snake() {
    let input = "camelToSnake";
    let expected = "camel_to_snake";
    assert_eq!(expected, SnakeCase.transform(input))
}

#[test]
fn pascal_to_snake() {
    let input = "PascalToSnake";
    let expected = "pascal_to_snake";
    assert_eq!(expected, SnakeCase.transform(input))
}

#[test]
fn snake_to_camel() {
    let input = "snake_to_camel";
    let expected = "snakeToCamel";
    assert_eq!(expected, CamelCase.transform(input))
}

#[test]
fn pascal_to_camel() {
    let input = "PascalToCamel";
    let expected = "pascalToCamel";
    assert_eq!(expected, CamelCase.transform(input))
}

#[test]
fn snake_to_pascal() {
    let input = "snake_to_pascal";
    let expected = "SnakeToPascal";
    assert_eq!(expected, PascalCase.transform(input))
}

#[test]
fn camel_to_pascal() {
    let input = "camelToPascal";
    let expected = "CamelToPascal";
    assert_eq!(expected, PascalCase.transform(input))
}

#[test]
fn sentence_from_title_case() {
    let input = "What's The Deal With Airline Food? it's so plane.";
    let expected = "What's the deal with airline food? It's so plane.";
    assert_eq!(expected, Sentence.transform(input))
}

#[test]
fn leading_uppercase_gets_no_separator() {
    assert_eq!("camel_to_snake", SnakeCase.transform("CamelToSnake"));
    assert_eq!("a", SnakeCase.transform("A"));
}

#[test]
fn empty_input_gives_empty_output() {
    assert_eq!("", SnakeCase.transform(""));
    assert_eq!("", PascalCase.transform(""));
    assert_eq!("", CamelCase.transform(""));
    assert_eq!("", Sentence.transform(""));
}

#[test]
fn text_in_the_target_case_is_kept() {
    assert_eq!("snake_case", SnakeCase.transform("snake_case"));
    assert_eq!("PascalCase", PascalCase.transform("PascalCase"));
    assert_eq!("camelCase", CamelCase.transform("camelCase"));
}

#[test]
fn converting_twice_equals_converting_once() {
    let snake = SnakeCase.transform("someLongName");
    assert_eq!("some_long_name", snake);
    assert_eq!(snake, SnakeCase.transform(&snake));
    let pascal = PascalCase.transform("some_long_name");
    assert_eq!("SomeLongName", pascal);
    assert_eq!(pascal, PascalCase.transform(&pascal));
    let camel = CamelCase.transform("some_long_name");
    assert_eq!("someLongName", camel);
    assert_eq!(camel, CamelCase.transform(&camel));
}

#[test]
fn snake_of_pascal_can_lose_the_input() {
    let pascal = PascalCase.transform("aB");
    assert_eq!("AB", pascal);
    let back = SnakeCase.transform(&pascal);
    assert_eq!("a_b", back);
    assert_ne!("aB", back);
}

#[test]
fn snake_drops_one_leading_separator_only() {
    assert_eq!("_foo", SnakeCase.transform("_Foo"));
    assert_eq!("_a", SnakeCase.transform("__a"));
    assert_eq!("foo", SnakeCase.transform("_foo"));
    assert_eq!("", SnakeCase.transform("_"));
}

#[test]
fn snake_keeps_what_is_not_uppercase() {
    assert_eq!("a1 b-c_d", SnakeCase.transform("a1 b-c_d"));
    assert_eq!("h_t_t_p_server", SnakeCase.transform("HTTPServer"));
}

#[test]
fn words_drop_separators_and_raise_what_follows() {
    assert_eq!("aB", CamelCase.transform("a__b"));
    assert_eq!("AB", PascalCase.transform("a__b"));
    assert_eq!("a", CamelCase.transform("a_"));
    assert_eq!("A", PascalCase.transform("a___"));
    assert_eq!("snakeTo", CamelCase.transform("Snake_to"));
    assert_eq!("AbCD", PascalCase.transform("ab_c_D"));
}

#[test]
fn words_keep_a_separator_that_opens_the_input() {
    assert_eq!("_ab", PascalCase.transform("_ab"));
    assert_eq!("_ab", CamelCase.transform("_ab"));
    assert_eq!("_B", PascalCase.transform("__b"));
}

#[test]
fn words_leave_other_characters_alone() {
    assert_eq!("Hello world", PascalCase.transform("hello world"));
    assert_eq!("hELLO", CamelCase.transform("HELLO"));
}

#[test]
fn mappings_of_several_characters_are_written_whole() {
    assert_eq!("SSa", PascalCase.transform("\u{df}a"));
    assert_eq!("aSS", CamelCase.transform("a_\u{df}"));
    assert_eq!("a_i\u{307}", SnakeCase.transform("a\u{130}"));
    assert_eq!("i\u{307}x", CamelCase.transform("\u{130}x"));
    assert_eq!("SS", Sentence.transform("\u{df}"));
    assert_eq!("A i\u{307}b", Sentence.transform("a \u{130}b"));
}

#[test]
fn output_length_stays_within_the_bound() {
    let inputs = ["", "a", "ABC", "\u{df}\u{df}", "a_b_c", "\u{130}\u{130} \u{130}", "Ab cd. ef"];
    let kinds = [SnakeCase, PascalCase, CamelCase, Sentence];
    for input in inputs {
        let mut longest = 0;
        for ch in input.chars() {
            longest = longest.max(ch.to_lowercase().count()).max(ch.to_uppercase().count());
        }
        for kind in kinds {
            let written = kind.transform(input).chars().count();
            assert!(written <= (longest + 1) * input.chars().count());
        }
    }
    assert_eq!(5, SnakeCase.transform("ABC").chars().count());
}

#[test]
fn sentence_raises_after_each_closing_mark() {
    assert_eq!("Hello world. Next one! Ok? Yes", Sentence.transform("hello world. next one! ok? yes"));
    assert_eq!("Hello.World", Sentence.transform("hello.world"));
    assert_eq!("...Hi", Sentence.transform("...hi"));
    assert_eq!("A .B", Sentence.transform("a .b"));
}

#[test]
fn sentence_lowers_only_the_first_letter_of_a_word() {
    assert_eq!("HeLLo wORLD", Sentence.transform("heLLo WORLD"));
    assert_eq!("One two, three; four", Sentence.transform("one Two, Three; Four"));
}

#[test]
fn sentence_treats_every_white_space_alike() {
    assert_eq!("A\tb\nc", Sentence.transform("a\tB\nC"));
    assert_eq!("  Hello  there", Sentence.transform("  hello  There"));
    assert_eq!("A\u{a0}b\u{3000}c", Sentence.transform("a\u{a0}B\u{3000}C"));
    assert_eq!("End. \n Start", Sentence.transform("end. \n start"));
}
