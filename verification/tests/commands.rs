use tomex::commands::{
    arg_parser, arg_parser_cli, arg_parser_repl, arg_parser_types, completions_of,
    generate_completions, resolve_action, split_command, target_from_name, Action, CommandSpec,
    Target,
};
use tomex::names::{JunctionKind, Names, RecordKind};
use tomex::prompt::{BokhyllePrompt, HistorySearchStatus, PromptEditMode, ViMode, HelixMode};
use tomex::queries::{
    listing_heading, nothing_selected, plan_query, Lookup, QueryPlan,
};
use tomex::records::{Book, EditionReview};

#[test]
fn record_types() {
    let types = arg_parser_types();
    let names: Vec<&str> = types.iter().map(|c| c.name.as_str()).collect();
    assert_eq!(
        names,
        vec![
            "book", "series", "review", "edition", "edition-review", "author", "publisher",
            "genre", "mood", "pace", "language", "progress"
        ]
    );
    assert_eq!(types[6].aliases, vec!["pub".to_string()]);
    assert!(types[9].aliases.is_empty());
}

#[test]
fn command_tree() {
    let root = arg_parser();
    assert!(root.multicall);
    let add = &root.subcommands[0];
    assert_eq!(add.aliases, vec!["a".to_string(), "insert".to_string()]);
    assert_eq!(add.subcommands.last().unwrap().name, "by_isbn");
    assert_eq!(add.subcommands.last().unwrap().aliases, vec!["isbn".to_string()]);
    for verb in &root.subcommands[0..4] {
        assert!(verb.subcommand_required);
        assert_eq!(verb.subcommands[6].aliases, vec!["pub".to_string()]);
    }
    assert!(!root.subcommands[4].subcommand_required);
    let query = &root.subcommands[3];
    let flags: Vec<&str> = query.args.iter().map(|a| a.name.as_str()).collect();
    assert_eq!(flags, vec!["all", "interactive", "uuid"]);
    assert_eq!(query.args[2].num_args, Some(1));
    assert_eq!(arg_parser_repl().subcommands[5].name, "exit");
    let cli = arg_parser_cli();
    assert_eq!(cli.subcommands[7].name, "restore");
    assert!(cli.subcommands[7].args[0].required);
}

#[test]
fn completions() {
    let all = generate_completions();
    assert_eq!(all.len(), 5 + 13 + 12 * 3 + 1);
    assert_eq!(all[0], "add");
    assert_eq!(all[1], "add author");
    assert!(all.contains(&"query edition-review".to_string()));
    assert!(all.contains(&"exit".to_string()));
    let mut sorted = all.clone();
    sorted.sort();
    assert_eq!(sorted, all);
    let small = CommandSpec::new("x", "root").subcommand(
        CommandSpec::new("b", "b").subcommand(CommandSpec::new("c", "c")),
    ).subcommand(CommandSpec::new("a", "a"));
    assert_eq!(completions_of(&small), vec!["a", "b", "b c"]);
}

#[test]
fn splitting_lines() {
    assert_eq!(
        split_command("add book \"The Hobbit\""),
        Some(vec!["add".to_string(), "book".to_string(), "The Hobbit".to_string()])
    );
    assert_eq!(split_command("query 'unclosed"), None);
}

#[test]
fn actions() {
    assert_eq!(resolve_action("add", Some("book")), Some(Action::Add(Target::Book)));
    assert_eq!(resolve_action("query", Some("edition-review")), Some(Action::Query(Target::EditionReview)));
    assert_eq!(resolve_action("remove", Some("series")), Some(Action::Remove(Target::Series)));
    assert_eq!(resolve_action("exit", None), Some(Action::Exit));
    assert_eq!(resolve_action("add", Some("by_isbn")), None);
    assert_eq!(resolve_action("listen", None), None);
    assert_eq!(resolve_action("edit", None), None);
    assert_eq!(target_from_name("progress"), Some(Target::Progress));
    assert_eq!(target_from_name("Progress"), None);
}

#[test]
fn record_names() {
    assert_eq!(RecordKind::Book.name_singular(), "book");
    assert_eq!(RecordKind::EditionReview.name_plural(), "editionreviews");
    assert_eq!(RecordKind::Progress.table_name(), "progresss");
    assert_eq!(JunctionKind::BookAuthor.table_name(), "book_author");
    assert_eq!(JunctionKind::ReviewMood.sides(), (RecordKind::Review, RecordKind::Mood));
    assert_eq!(Book::kind(), RecordKind::Book);
    assert_eq!(EditionReview::kind().table_name(), "editionreviews");
}

#[test]
fn prompt_texts() {
    let p = BokhyllePrompt;
    assert_eq!(p.render_prompt_left(), "Bokhylle ");
    assert_eq!(p.render_prompt_right(), "");
    assert_eq!(p.render_prompt_indicator(PromptEditMode::Default), "> ");
    assert_eq!(p.render_prompt_indicator(PromptEditMode::Vi(ViMode::Insert)), "> ");
    assert_eq!(p.render_prompt_indicator(PromptEditMode::Helix(HelixMode::Select)), "> ");
    assert_eq!(p.render_prompt_indicator(PromptEditMode::Custom("nu".to_string())), "(nu)");
    assert_eq!(p.render_prompt_multiline_indicator(), ":> ");
    assert_eq!(
        p.render_prompt_history_search_indicator(HistorySearchStatus::Passing, "dune"),
        "(reverse-search: dune) "
    );
    assert_eq!(
        p.render_prompt_history_search_indicator(HistorySearchStatus::Failing, "x"),
        "(failing reverse-search: x) "
    );
}

#[test]
fn query_plans() {
    assert_eq!(
        plan_query(false, false, None),
        QueryPlan { interactive: false, lookup: Lookup::ListAll }
    );
    assert_eq!(plan_query(true, true, None).lookup, Lookup::NoUuid);
    assert_eq!(plan_query(false, true, Some("nope")).lookup, Lookup::InvalidUuid);
    assert_eq!(
        plan_query(false, true, Some("00000000-0000-0000-0000-00000000002a")).lookup,
        Lookup::ById(tomex::ids::Uuid(42))
    );
    assert_eq!(Lookup::InvalidUuid.message().as_deref(), Some("Invalid uuid"));
    assert_eq!(Lookup::NoUuid.message().as_deref(), Some("No uuid supplied"));
    assert!(Lookup::ListAll.message().is_none());
    assert!(Lookup::PickOnly.message().is_none());
    assert_eq!(
        plan_query(true, false, None),
        QueryPlan { interactive: true, lookup: Lookup::PickOnly }
    );
}

#[test]
fn listing_texts() {
    assert_eq!(listing_heading(RecordKind::Book), "\nBooks:");
    assert_eq!(listing_heading(RecordKind::EditionFormat), "\nEditionformats:");
    assert_eq!(nothing_selected(RecordKind::Mood), "No mood selected.");
}
