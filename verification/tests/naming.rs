use ton_gql::operation::GraphQLOperation;

fn doc_type(collection: &str) -> String {
    GraphQLOperation::collection_doc_type(collection)
}

#[test]
fn doc_type_of_plural_collection_is_singular() {
    assert_eq!(doc_type("messages"), "Message");
    assert_eq!(doc_type("accounts"), "Account");
    assert_eq!(doc_type("transactions"), "Transaction");
    assert_eq!(doc_type("blocks"), "Block");
}

#[test]
fn doc_type_strips_the_first_segment_only() {
    assert_eq!(doc_type("blocks_signatures"), "BlockSignatures");
    assert_eq!(doc_type("block_signatures"), "BlockSignatures");
    assert_eq!(doc_type("zerostates_accounts"), "ZerostateAccounts");
}

#[test]
fn doc_type_strips_a_single_s() {
    assert_eq!(doc_type("glass"), "Glas");
    assert_eq!(doc_type("ss"), "S");
    assert_eq!(doc_type("bosses_list"), "BosseList");
}

#[test]
fn doc_type_of_singular_collection_is_unchanged_but_capitalized() {
    assert_eq!(doc_type("message"), "Message");
    assert_eq!(doc_type("data"), "Data");
    assert_eq!(doc_type("x"), "X");
}

#[test]
fn doc_type_keeps_a_lone_capital_s() {
    assert_eq!(doc_type("s"), "S");
    assert_eq!(doc_type("s_s"), "SS");
}

#[test]
fn doc_type_capitalizes_every_segment_in_order() {
    assert_eq!(doc_type("a_b_c"), "ABC");
    assert_eq!(doc_type("one_two_three"), "OneTwoThree");
    assert_eq!(doc_type("shard_block_proofs"), "ShardBlockProofs");
}

#[test]
fn doc_type_leaves_other_characters_alone() {
    assert_eq!(doc_type("Messages"), "Message");
    assert_eq!(doc_type("mESSAGES"), "MESSAGES");
    assert_eq!(doc_type("9lives_2go"), "9live2go");
    assert_eq!(doc_type("émeutes_été"), "émeuteété");
    assert_eq!(doc_type("my table_rows"), "My tableRows");
}

#[test]
fn doc_type_takes_empty_segments() {
    assert_eq!(doc_type("a_"), "A");
    assert_eq!(doc_type("as_"), "A");
    assert_eq!(doc_type("a__b"), "AB");
    assert_eq!(doc_type("_a"), "A");
    assert_eq!(doc_type("_"), "");
    assert_eq!(doc_type("__"), "");
    assert_eq!(doc_type("_as"), "As");
}

#[test]
fn doc_type_holds_no_underscore() {
    for name in ["messages", "block_signatures", "a__b_", "_", "x_y_z", "__s__"] {
        assert!(!doc_type(name).contains('_'), "{}", name);
    }
}

#[test]
fn doc_type_is_the_same_on_every_call() {
    for name in ["messages", "block_signatures", "a__b_", "s"] {
        assert_eq!(doc_type(name), doc_type(name));
    }
}
