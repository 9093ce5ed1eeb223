use clean_rust::prune::{prune, prune_item, prune_items};
use clean_rust::{
    clean, clean_item, clean_items, is_used, rename, Function, Import, ImportFilter, Item,
    Parameter, Statement, SyntaxTree,
};

fn body(texts: &[&str]) -> Vec<Statement> {
    texts.iter().map(|text| Statement::new(text)).collect()
}

fn function(params: Vec<Parameter>, texts: &[&str], nested: Vec<Item>) -> Function {
    Function { params, body: body(texts), nested }
}

fn allow(markers: &[&str]) -> ImportFilter {
    ImportFilter::new(markers.iter().map(|marker| marker.to_string()).collect())
}

fn import(path: &str) -> Item {
    Item::Import(Import::new(path))
}

fn names(function: &Function) -> Vec<&str> {
    function.params.iter().map(|param| param.name.as_str()).collect()
}

#[test]
fn builders_fill_the_fields() {
    assert_eq!(
        Parameter::simple("a", "Int"),
        Parameter { name: "a".to_string(), ty: "Int".to_string(), simple: true }
    );
    assert_eq!(
        Parameter::pattern("(a , b)", "(u8 , u8)"),
        Parameter { name: "(a , b)".to_string(), ty: "(u8 , u8)".to_string(), simple: false }
    );
    assert_eq!(Statement::new("return a ;"), Statement { text: "return a ;".to_string() });
    assert_eq!(Import::new("core :: foo"), Import { path: "core :: foo".to_string() });
}

#[test]
fn a_name_in_a_statement_is_used() {
    let statements = body(&["let x = a + 1 ;", "return x ;"]);
    assert!(is_used("a", &statements));
    assert!(is_used("x", &statements));
    assert!(is_used("return", &statements));
    assert!(!is_used("b", &statements));
    assert!(!is_used("a + 1 ; return", &statements));
}

#[test]
fn nothing_is_used_in_an_empty_body() {
    assert!(!is_used("a", &body(&[])));
    assert!(!is_used("", &body(&[])));
}

#[test]
fn the_empty_name_is_used_wherever_a_statement_stands() {
    assert!(is_used("", &body(&["return ;"])));
    assert!(is_used("", &body(&[""])));
}

#[test]
fn usage_is_a_test_on_text_alone() {
    assert!(is_used("e", &body(&["return 0 ;"])));
    assert!(is_used("id", &body(&["msg ! (\"no id given\") ;"])));
    assert!(is_used("x", &body(&["let _x = 1 ;"])));
    assert!(is_used("m", &body(&["use std :: fmt ;"])));
    assert!(!is_used("_x", &body(&["let x = 1 ;"])));
}

#[test]
fn an_unused_parameter_gets_the_marker() {
    let mut f = function(
        vec![Parameter::simple("a", "Int"), Parameter::simple("b", "Int")],
        &["return a ;"],
        vec![],
    );
    rename(&mut f);
    assert_eq!(
        f,
        function(
            vec![Parameter::simple("a", "Int"), Parameter::simple("_b", "Int")],
            &["return a ;"],
            vec![],
        )
    );
}

#[test]
fn a_used_parameter_keeps_its_name() {
    let mut f = function(
        vec![Parameter::simple("left", "u8"), Parameter::simple("right", "u8")],
        &["let sum = left + right ;", "sum"],
        vec![],
    );
    rename(&mut f);
    assert_eq!(names(&f), vec!["left", "right"]);
}

#[test]
fn every_parameter_of_an_empty_body_is_marked() {
    let mut f = function(
        vec![
            Parameter::simple("program_id", "& Pubkey"),
            Parameter::simple("accounts", "& [AccountInfo]"),
            Parameter::simple("instruction_data", "& [u8]"),
        ],
        &[],
        vec![],
    );
    rename(&mut f);
    assert_eq!(names(&f), vec!["_program_id", "_accounts", "_instruction_data"]);
}

#[test]
fn renaming_keeps_arity_order_types_and_body() {
    let mut f = function(
        vec![
            Parameter::simple("a", "A"),
            Parameter::simple("b", "B"),
            Parameter::simple("c", "C"),
        ],
        &["use_it (b) ;"],
        vec![import("extras :: bar")],
    );
    rename(&mut f);
    assert_eq!(f.params.len(), 3);
    assert_eq!(names(&f), vec!["_a", "b", "_c"]);
    let types: Vec<&str> = f.params.iter().map(|param| param.ty.as_str()).collect();
    assert_eq!(types, vec!["A", "B", "C"]);
    assert!(f.params.iter().all(|param| param.simple));
    assert_eq!(f.body, body(&["use_it (b) ;"]));
    assert_eq!(f.nested, vec![import("extras :: bar")]);
}

#[test]
fn a_pattern_that_is_no_plain_identifier_is_left_alone() {
    let mut f = function(
        vec![
            Parameter::pattern("& self", ""),
            Parameter::pattern("(x , y)", "(u8 , u8)"),
            Parameter::pattern("_", "u8"),
            Parameter::simple("z", "u8"),
        ],
        &["return 0 ;"],
        vec![],
    );
    rename(&mut f);
    assert_eq!(names(&f), vec!["& self", "(x , y)", "_", "_z"]);
}

#[test]
fn renaming_twice_changes_nothing_when_every_parameter_is_used() {
    let mut once = function(
        vec![Parameter::simple("a", "Int"), Parameter::pattern("(b , c)", "Pair")],
        &["return a ;"],
        vec![],
    );
    rename(&mut once);
    let mut twice = function(
        vec![Parameter::simple("a", "Int"), Parameter::pattern("(b , c)", "Pair")],
        &["return a ;"],
        vec![],
    );
    rename(&mut twice);
    rename(&mut twice);
    assert_eq!(twice, once);
    assert_eq!(names(&once), vec!["a", "(b , c)"]);
}

#[test]
fn a_second_pass_marks_a_marked_parameter_again() {
    let mut f = function(
        vec![Parameter::simple("a", "Int"), Parameter::simple("b", "Int")],
        &["return a ;"],
        vec![],
    );
    rename(&mut f);
    assert_eq!(names(&f), vec!["a", "_b"]);
    rename(&mut f);
    assert_eq!(names(&f), vec!["a", "__b"]);
}

#[test]
fn a_marked_parameter_that_the_body_names_is_left_alone() {
    let mut f = function(vec![Parameter::simple("_b", "Int")], &["drop (_b) ;"], vec![]);
    rename(&mut f);
    assert_eq!(names(&f), vec!["_b"]);
}

#[test]
fn an_import_stays_only_with_a_marker_in_its_path() {
    let filter = allow(&["core"]);
    assert!(filter.should_keep("core :: foo"));
    assert!(filter.should_keep("my :: hardcore :: thing"));
    assert!(!filter.should_keep("extras :: bar"));
    assert!(!filter.should_keep("cor :: e"));
    assert!(!filter.should_keep(""));
}

#[test]
fn any_marker_of_the_list_is_enough() {
    let filter = allow(&["alpha", "beta"]);
    assert!(filter.should_keep("alpha :: x"));
    assert!(filter.should_keep("x :: beta"));
    assert!(!filter.should_keep("gamma"));
}

#[test]
fn an_empty_allow_list_keeps_nothing() {
    let filter = allow(&[]);
    assert!(!filter.should_keep("core :: foo"));
    assert!(!filter.should_keep(""));
}

#[test]
fn the_default_filter_keeps_the_two_namespaces() {
    let filter = ImportFilter::default();
    assert!(filter.should_keep("solana_program :: { account_info :: AccountInfo , msg }"));
    assert!(filter.should_keep("solana_sdk :: signature :: Signer"));
    assert!(!filter.should_keep("std :: fs"));
    assert!(!filter.should_keep("solana :: program"));
}

#[test]
fn one_function_and_two_imports() {
    let mut tree = SyntaxTree {
        items: vec![
            import("core :: foo"),
            import("extras :: bar"),
            Item::Function(function(
                vec![Parameter::simple("a", "Int"), Parameter::simple("b", "Int")],
                &["return a ;"],
                vec![],
            )),
        ],
    };
    clean(&mut tree, &allow(&["core"]));
    assert_eq!(
        tree,
        SyntaxTree {
            items: vec![
                import("core :: foo"),
                Item::Erased,
                Item::Function(function(
                    vec![Parameter::simple("a", "Int"), Parameter::simple("_b", "Int")],
                    &["return a ;"],
                    vec![],
                )),
            ],
        }
    );
}

#[test]
fn the_walk_reaches_every_level() {
    let inner = function(
        vec![Parameter::simple("n", "u8")],
        &["use std :: fmt ;", "0"],
        vec![import("std :: fmt")],
    );
    let outer = function(
        vec![Parameter::simple("n", "u8"), Parameter::simple("count", "u8")],
        &["fn inner (n : u8) -> u8 { use std :: fmt ; 0 }", "inner (1)"],
        vec![Item::Function(inner)],
    );
    let module = Item::Other(vec![
        import("std :: io"),
        import("solana_program :: msg"),
        Item::Function(outer),
        Item::Other(vec![import("std :: env")]),
    ]);
    let mut tree = SyntaxTree { items: vec![module, import("solana_sdk :: pubkey")] };
    clean(&mut tree, &ImportFilter::default());

    let inner = function(
        vec![Parameter::simple("_n", "u8")],
        &["use std :: fmt ;", "0"],
        vec![Item::Erased],
    );
    let outer = function(
        vec![Parameter::simple("n", "u8"), Parameter::simple("_count", "u8")],
        &["fn inner (n : u8) -> u8 { use std :: fmt ; 0 }", "inner (1)"],
        vec![Item::Function(inner)],
    );
    let module = Item::Other(vec![
        Item::Erased,
        import("solana_program :: msg"),
        Item::Function(outer),
        Item::Other(vec![Item::Erased]),
    ]);
    assert_eq!(tree, SyntaxTree { items: vec![module, import("solana_sdk :: pubkey")] });
}

#[test]
fn a_settled_file_is_left_as_it_is() {
    let build = || SyntaxTree {
        items: vec![
            import("core :: foo"),
            Item::Function(function(
                vec![Parameter::simple("a", "Int"), Parameter::pattern("& self", "")],
                &["return a ;"],
                vec![import("core :: bar")],
            )),
            Item::Other(vec![]),
            Item::Erased,
        ],
    };
    let mut tree = build();
    clean(&mut tree, &allow(&["core"]));
    assert_eq!(tree, build());
}

#[test]
fn an_empty_file_stays_empty() {
    let mut tree = SyntaxTree { items: vec![] };
    clean(&mut tree, &ImportFilter::default());
    assert_eq!(tree, SyntaxTree { items: vec![] });
}

#[test]
fn an_erased_import_leaves_a_placeholder_in_its_place() {
    let mut items = vec![import("a"), import("b"), import("c")];
    clean_items(&mut items, &allow(&["b"]));
    assert_eq!(items, vec![Item::Erased, import("b"), Item::Erased]);
}

#[test]
fn one_item_is_cleaned_with_all_that_it_nests() {
    let mut item = Item::Other(vec![Item::Function(function(
        vec![Parameter::simple("x", "u8")],
        &[],
        vec![import("std :: mem")],
    ))]);
    clean_item(&mut item, &allow(&["core"]));
    assert_eq!(
        item,
        Item::Other(vec![Item::Function(function(
            vec![Parameter::simple("_x", "u8")],
            &[],
            vec![Item::Erased],
        ))])
    );

    let mut kept = import("core :: mem");
    clean_item(&mut kept, &allow(&["core"]));
    assert_eq!(kept, import("core :: mem"));

    let mut gone = import("std :: mem");
    clean_item(&mut gone, &allow(&["core"]));
    assert_eq!(gone, Item::Erased);
}

#[test]
fn the_imports_that_remain_are_the_allow_listed_ones_in_order() {
    let mut tree = SyntaxTree {
        items: vec![
            import("core :: a"),
            import("std :: b"),
            Item::Other(vec![import("core :: c"), import("alloc :: d")]),
            import("core :: e"),
        ],
    };
    clean(&mut tree, &allow(&["core"]));
    let mut left: Vec<String> = Vec::new();
    let mut open: Vec<&Item> = tree.items.iter().rev().collect();
    while let Some(item) = open.pop() {
        match item {
            Item::Import(import) => left.push(import.path.clone()),
            Item::Other(nested) => open.extend(nested.iter().rev()),
            Item::Function(function) => open.extend(function.nested.iter().rev()),
            Item::Erased => {}
        }
    }
    assert_eq!(left, vec!["core :: a", "core :: c", "core :: e"]);
}

#[test]
fn pruning_takes_the_placeholders_out_at_every_level() {
    let mut tree = SyntaxTree {
        items: vec![
            Item::Erased,
            import("core :: a"),
            Item::Other(vec![Item::Erased, import("core :: b"), Item::Erased, Item::Other(vec![])]),
            Item::Erased,
            Item::Erased,
            Item::Function(function(
                vec![Parameter::simple("x", "u8")],
                &["x"],
                vec![Item::Erased, Item::Other(vec![Item::Erased])],
            )),
            Item::Erased,
        ],
    };
    prune(&mut tree);
    assert_eq!(
        tree,
        SyntaxTree {
            items: vec![
                import("core :: a"),
                Item::Other(vec![import("core :: b"), Item::Other(vec![])]),
                Item::Function(function(
                    vec![Parameter::simple("x", "u8")],
                    &["x"],
                    vec![Item::Other(vec![])],
                )),
            ],
        }
    );
}

#[test]
fn pruning_a_run_of_placeholders_leaves_nothing() {
    let mut items = vec![Item::Erased, Item::Erased, Item::Erased];
    prune_items(&mut items);
    assert_eq!(items, vec![]);

    let mut none: Vec<Item> = vec![];
    prune_items(&mut none);
    assert_eq!(none, vec![]);
}

#[test]
fn pruning_one_item_keeps_the_item_itself() {
    let mut placeholder = Item::Erased;
    prune_item(&mut placeholder);
    assert_eq!(placeholder, Item::Erased);

    let mut kept = import("core :: a");
    prune_item(&mut kept);
    assert_eq!(kept, import("core :: a"));

    let mut module = Item::Other(vec![Item::Erased, import("core :: a")]);
    prune_item(&mut module);
    assert_eq!(module, Item::Other(vec![import("core :: a")]));
}

#[test]
fn pruning_twice_is_pruning_once() {
    let build = || vec![Item::Erased, import("a"), Item::Other(vec![Item::Erased]), import("b")];
    let mut once = build();
    prune_items(&mut once);
    let mut twice = build();
    prune_items(&mut twice);
    prune_items(&mut twice);
    assert_eq!(twice, once);
    assert_eq!(once, vec![import("a"), Item::Other(vec![]), import("b")]);
}

#[test]
fn an_erased_import_is_gone_after_pruning() {
    let mut tree = SyntaxTree {
        items: vec![
            import("core :: foo"),
            import("extras :: bar"),
            Item::Function(function(
                vec![Parameter::simple("a", "Int"), Parameter::simple("b", "Int")],
                &["return a ;"],
                vec![],
            )),
        ],
    };
    clean(&mut tree, &allow(&["core"]));
    prune(&mut tree);
    assert_eq!(
        tree,
        SyntaxTree {
            items: vec![
                import("core :: foo"),
                Item::Function(function(
                    vec![Parameter::simple("a", "Int"), Parameter::simple("_b", "Int")],
                    &["return a ;"],
                    vec![],
                )),
            ],
        }
    );
}

#[test]
fn a_copy_is_equal_and_stands_alone() {
    let tree = SyntaxTree {
        items: vec![
            import("std :: fs"),
            Item::Other(vec![Item::Erased, import("core :: a")]),
            Item::Function(function(
                vec![Parameter::simple("x", "u8"), Parameter::pattern("& self", "")],
                &["return 0 ;"],
                vec![import("std :: io")],
            )),
        ],
    };
    let mut copy = tree.clone();
    assert_eq!(copy, tree);
    clean(&mut copy, &allow(&["core"]));
    assert_ne!(copy, tree);
    assert_eq!(tree.items[0], import("std :: fs"));
    assert_eq!(copy.items[0], Item::Erased);
    assert_eq!(tree.items[2].clone(), tree.items[2]);
    assert_eq!(Parameter::simple("x", "u8").clone(), Parameter::simple("x", "u8"));
    assert_eq!(Statement::new("x").clone(), Statement::new("x"));
    assert_eq!(Import::new("a :: b").clone(), Import::new("a :: b"));
}
