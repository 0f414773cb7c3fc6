use function_suggestions::FunctionSuggester;

#[test]
fn test_function_suggestions() {
    let suggester = FunctionSuggester::new();

    // Test prefix matching
    let results = suggester.suggest("SUM");
    assert!(results.contains(&"SUM".to_string()));
    assert!(results.contains(&"SUMIF".to_string()));
    assert!(results.contains(&"SUMIFS".to_string()));

    // Test case insensitive
    let results = suggester.suggest("sum");
    assert!(results.contains(&"SUM".to_string()));
    assert!(results.contains(&"SUMIF".to_string()));
    assert!(results.contains(&"SUMIFS".to_string()));

    // Test no matches
    let results = suggester.suggest("NOTAFUNCTION");
    assert!(results.is_empty());
}

#[test]
fn sum_prefix_in_registry_order() {
    let suggester = FunctionSuggester::new();
    assert_eq!(
        suggester.suggest("SUM"),
        vec!["SUM".to_string(), "SUMIF".to_string(), "SUMIFS".to_string()]
    );
}

#[test]
fn lower_case_input_is_folded() {
    let suggester = FunctionSuggester::new();
    assert_eq!(suggester.suggest("sum"), suggester.suggest("SUM"));
    assert_eq!(suggester.suggest("Sum"), suggester.suggest("SUM"));
    assert_eq!(suggester.suggest("sUm"), suggester.suggest("SUM"));
}

#[test]
fn mixed_case_count_prefix() {
    let suggester = FunctionSuggester::new();
    assert_eq!(
        suggester.suggest("CoUnT"),
        vec!["COUNT".to_string(), "COUNTA".to_string(), "COUNTIF".to_string()]
    );
}

#[test]
fn aver_prefix_single_match() {
    let suggester = FunctionSuggester::new();
    assert_eq!(suggester.suggest("AVER"), vec!["AVERAGE".to_string()]);
}

#[test]
fn unknown_prefix_yields_empty() {
    let suggester = FunctionSuggester::new();
    assert!(suggester.suggest("NOTAFUNCTION").is_empty());
    assert!(suggester.suggest("SUMX").is_empty());
    assert!(suggester.suggest("ZZZ").is_empty());
    assert!(suggester.suggest("1").is_empty());
}

#[test]
fn empty_input_returns_full_registry() {
    let suggester = FunctionSuggester::new();
    let all = suggester.suggest("");
    let expected = [
        "ABS", "AND", "AVERAGE", "CEILING", "CONCAT", "COS", "COUNT", "COUNTA", "COUNTIF",
        "FALSE", "FLOOR", "IF", "IFERROR", "ISBLANK", "ISNUMBER", "LEFT", "LEN", "LOWER", "MAX",
        "MID", "MIN", "MOD", "NOT", "OR", "PI", "POWER", "PRODUCT", "RIGHT", "ROUND", "SIN",
        "SQRT", "SUM", "SUMIF", "SUMIFS", "TAN", "TRIM", "TRUE", "UPPER", "VLOOKUP",
    ];
    let expected: Vec<String> = expected.iter().map(|s| s.to_string()).collect();
    assert_eq!(all, expected);
    // No duplicates among the registered names.
    let mut deduped = all.clone();
    deduped.sort();
    deduped.dedup();
    assert_eq!(deduped.len(), all.len());
}

#[test]
fn every_name_reachable_via_first_character() {
    let suggester = FunctionSuggester::new();
    for name in suggester.suggest("") {
        let first = &name[0..1];
        assert!(suggester.suggest(first).contains(&name));
    }
}

#[test]
fn results_start_with_folded_input() {
    let suggester = FunctionSuggester::new();
    for query in ["S", "SU", "su", "A", "aver", "C", "x", ""] {
        let folded = query.to_uppercase();
        for name in suggester.suggest(query) {
            assert!(name.starts_with(&folded));
        }
    }
}

#[test]
fn repeated_queries_are_identical() {
    let suggester = FunctionSuggester::new();
    for query in ["", "S", "sum", "NOTAFUNCTION"] {
        assert_eq!(suggester.suggest(query), suggester.suggest(query));
    }
}
