use bdk_ffi::hello::{CoinSelectionAlgorithm, DoubleCS, HelloStruct, TripleCS, TxBuilder, Wallet};

#[test]
fn hello_greetings() {
    assert_eq!(HelloStruct::hello_static("world"), "Hello Static world");
    let h = HelloStruct { init: "abc".to_string() };
    assert_eq!(h.hello_method("x"), "Hello Method. Init(abc): x");
}

#[test]
fn coin_selections() {
    assert_eq!(DoubleCS::new(1).do_something(5), 11);
    assert_eq!(TripleCS::new(1).do_something(5), 16);
}

#[test]
fn builder_flow() {
    let w = Wallet::new("main");
    let mut b = w.create_tx();
    assert!(!b.flag);
    assert!(b.enable_flag().flag);
    assert!(!b.disable_flag().flag);
    b.enable_flag();
    assert_eq!(b.get_wallet_name(), "main");
    assert_eq!(b.mut_cs().0, 0);
    b.mut_cs().0 = 2;
    let b = b.coin_selection(TripleCS::new(1));
    assert!(b.flag);
    assert_eq!(b.finish(), 16);
    let b = TxBuilder::new(&w, DoubleCS::new(3)).convert_internal_cs(|cs: DoubleCS| TripleCS::new(cs.0));
    assert_eq!(b.finish(), 18);
}
