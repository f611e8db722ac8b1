use patterns::chain::{Handler, Keeper, Processing, Validator};
use patterns::colleagues::{Colleagues, User};
use patterns::command::{
    BusinessLogic, CloseCommand, OpenCommand, UserInvoker, ValidateCommand,
};
use patterns::memento::Article;
use patterns::state;
use patterns::state::ArticleState;
use patterns::strategy::{DataSet, FastSorting, RegularSorting, Sorting};
use patterns::template::{path_extension, Document, DocumentPDF, DocumentWord};
use patterns::template_method::{TestingSystem, TestingSystemDebian, TestingSystemUbuntu};
use patterns::visitor::{Building, FirstVisitor, SecondVisitor};

use std::rc::Rc;

#[test]
fn chain_passes_the_request_along() {
    let mut validator: Validator<Keeper> = Validator::new();
    validator.set_next(Box::new(Keeper::new()));
    let mut processing: Processing<Validator<Keeper>> = Processing::new();
    processing.set_next(Box::new(validator));
    assert_eq!(
        processing.execute(),
        vec!["Validate document".to_string(), "Save document".to_string()]
    );
}

#[test]
fn chain_without_handlers_does_nothing() {
    let processing: Processing<Keeper> = Processing::new();
    assert!(processing.execute().is_empty());
    let validator: Validator<Keeper> = Validator::new();
    assert_eq!(validator.execute(), vec!["Validate document".to_string()]);
    assert_eq!(Keeper::new().execute(), vec!["Save document".to_string()]);
}

#[test]
fn commands_replay_the_business_logic() {
    let logic = Rc::new(BusinessLogic::new());
    let user = UserInvoker::new(
        OpenCommand::new(logic.clone()),
        ValidateCommand::new(logic.clone()),
        CloseCommand::new(logic),
    );
    assert_eq!(user.open(), "Open transaction");
    assert_eq!(user.validate(), "Validate transaction");
    assert_eq!(user.close(), "Close transaction");
}

#[test]
fn iterator_walks_users_in_order() {
    let mut colleagues = Colleagues::new();
    colleagues.add_user(User::new(1, "John"));
    colleagues.add_user(User::new(2, "Smith"));
    colleagues.add_user(User::new(1, "Kate"));

    let mut it = colleagues.iterator();
    let mut seen: Vec<(usize, String)> = Vec::new();
    while let Some(user) = it.next() {
        seen.push((user.id, user.name.clone()));
    }
    assert_eq!(
        seen,
        vec![
            (1, "John".to_string()),
            (2, "Smith".to_string()),
            (1, "Kate".to_string()),
        ]
    );
    assert!(it.next().is_none());
}

#[test]
fn memento_rolls_back_saved_content() {
    let mut article = Article::new();
    article.set_content("First content");
    article.save();
    article.set_content("Second content");
    article.save();
    article.set_content("Third content");
    article.save();

    let mut seen: Vec<String> = Vec::new();
    for _ in 0..3 {
        article.restore();
        seen.push(article.get_content().to_string());
    }
    assert_eq!(
        seen,
        vec![
            "Third content".to_string(),
            "Second content".to_string(),
            "First content".to_string(),
        ]
    );

    // restoring with nothing saved changes nothing
    article.restore();
    assert_eq!(article.get_content(), "First content");
}

#[test]
fn article_states_follow_the_transition_table() {
    let mut article = state::Article::new();
    assert_eq!(article.state(), ArticleState::Draft);

    let note = article.set_content("Pattern state!");
    assert_eq!(note, "DraftState -> DraftState");

    let note = article.approve();
    assert_eq!(note, Some("DraftState -> ApprovedState".to_string()));
    assert_eq!(article.state(), ArticleState::Approved);

    // publishing a draft keeps it a draft
    let note = article.set_content("Pattern state!!!");
    assert_eq!(note, "ApprovedState -> DraftState");
    assert!(article.publish().is_none());
    assert_eq!(article.state(), ArticleState::Draft);

    article.approve();
    let note = article.publish();
    assert_eq!(note, Some("ApprovedState -> PublishedState".to_string()));
    assert_eq!(article.state(), ArticleState::Published);

    // a published article stays published
    assert!(article.approve().is_none());
    assert!(article.publish().is_none());
    assert_eq!(article.state(), ArticleState::Published);
    assert_eq!(article.content(), "Pattern state!!!");
}

#[test]
fn strategies_sort_and_report() {
    let mut data_set = DataSet::new(vec![4, 67, 2, 7, 5], FastSorting::new());
    let note = data_set.sort();
    assert_eq!(note, "Used fast sorting");
    assert_eq!(data_set.data, vec![2, 4, 5, 7, 67]);

    let mut v = vec![3, 3, -1, 0];
    let note = RegularSorting::new().sort(&mut v);
    assert_eq!(note, "Used regular sorting, but less memory is used");
    assert_eq!(v, vec![-1, 0, 3, 3]);

    let mut empty: Vec<i32> = Vec::new();
    FastSorting::new().sort(&mut empty);
    assert!(empty.is_empty());
}

#[test]
fn exchanged_strategy_still_sorts() {
    let mut data_set = DataSet::new(vec![9, 1], FastSorting::new());
    data_set.set_sorting(FastSorting::new());
    data_set.sort();
    assert_eq!(data_set.data, vec![1, 9]);
}

#[test]
fn documents_open_only_their_extension() {
    let word = DocumentWord::new();
    assert!(word.open("/home/user/rules.doc").is_some());
    let pdf = DocumentPDF::new();
    assert!(pdf.open("/home/user/rules.doc").is_none());
    assert!(pdf.open("/home/user/rules.pdf").is_some());
}

#[test]
fn path_extension_finds_the_last_dot() {
    assert_eq!(path_extension("archive.tar.gz"), Some("gz"));
    assert_eq!(path_extension("/tmp.d/file"), None);
    assert_eq!(path_extension("name."), Some(""));
    assert_eq!(path_extension("no_extension"), None);
    assert_eq!(path_extension(""), None);
}

#[test]
fn test_runs_keep_the_skeleton() {
    let debian = TestingSystemDebian::new();
    assert_eq!(
        debian.run(),
        vec![
            "Download debian docker image".to_string(),
            "Run tests".to_string(),
            "Remome debian docker image".to_string(),
        ]
    );
    let ubuntu = TestingSystemUbuntu::new();
    assert_eq!(
        ubuntu.run(),
        vec![
            "Download ubuntu docker image".to_string(),
            "Run tests".to_string(),
            "Remome ubuntu docker image".to_string(),
        ]
    );
}

#[test]
fn visitors_are_dispatched_per_building() {
    let buildings = vec![Building::Plant, Building::Shop, Building::Warehouse];

    let first = FirstVisitor {};
    let lines: Vec<String> = buildings.iter().map(|b| b.accept(&first)).collect();
    assert_eq!(
        lines,
        vec![
            "First visited plant".to_string(),
            "First visited shop".to_string(),
            "First visited warehouse".to_string(),
        ]
    );

    let second = SecondVisitor {};
    let lines: Vec<String> = buildings.iter().map(|b| b.accept(&second)).collect();
    assert_eq!(
        lines,
        vec![
            "Second visited plant".to_string(),
            "Second visited shop".to_string(),
            "Second visited warehouse".to_string(),
        ]
    );
}
