use vapore::holdings::{all_stock_descriptions, StockSymbol, TransactionType};

#[test]
fn supported_symbols_are_resolved() {
    assert_eq!(StockSymbol::new("VXUS"), StockSymbol::VXUS);
    assert_eq!(StockSymbol::new("BNDX"), StockSymbol::BNDX);
    assert_eq!(StockSymbol::new("VTIP"), StockSymbol::VTIP);
    assert_eq!(StockSymbol::new("BND"), StockSymbol::BND);
    assert_eq!(StockSymbol::new("VWO"), StockSymbol::VWO);
    assert_eq!(StockSymbol::new("VO"), StockSymbol::VO);
    assert_eq!(StockSymbol::new("VB"), StockSymbol::VB);
    assert_eq!(StockSymbol::new("VTC"), StockSymbol::VTC);
    assert_eq!(StockSymbol::new("VV"), StockSymbol::VV);
    assert_eq!(StockSymbol::new("VMFXX"), StockSymbol::VMFXX);
}

#[test]
fn empty_and_unsupported_symbols_are_resolved() {
    assert_eq!(StockSymbol::new(""), StockSymbol::Empty);
    assert_eq!(StockSymbol::new("AAPL"), StockSymbol::Other("AAPL".to_string()));
    assert_eq!(StockSymbol::new("bnd"), StockSymbol::Other("bnd".to_string()));
    assert_eq!(StockSymbol::new(" BND"), StockSymbol::Other(" BND".to_string()));
    assert_ne!(StockSymbol::new("AAPL"), StockSymbol::new("MSFT"));
}

#[test]
fn descriptions_of_supported_symbols() {
    assert_eq!(StockSymbol::new("BND").description(), "BND: US total bond");
    assert_eq!(StockSymbol::VV.description(), "VV: US large cap");
    assert_eq!(StockSymbol::VO.description(), "VO: US mid cap");
    assert_eq!(StockSymbol::VB.description(), "VB: US small cap");
    assert_eq!(StockSymbol::VTC.description(), "VTC: US total corporate bond");
    assert_eq!(StockSymbol::VXUS.description(), "VXUS: Total international stock");
    assert_eq!(StockSymbol::VWO.description(), "VWO: Emerging markets stock");
    assert_eq!(StockSymbol::BNDX.description(), "BNDX: Total international bond");
    assert_eq!(StockSymbol::VTIP.description(), "VTIP: Inflation protected securities");
}

#[test]
fn descriptions_of_other_symbols() {
    assert_eq!(StockSymbol::VMFXX.description(), "No description for VMFXX");
    assert_eq!(StockSymbol::Empty.description(), "No description for Empty");
    assert_eq!(
        StockSymbol::Other("AAPL".to_string()).description(),
        "No description for Other(\"AAPL\")"
    );
    // the name is written as `{:?}` writes it, with its escapes
    assert_eq!(
        StockSymbol::Other("A\"B\n".to_string()).description(),
        "No description for Other(\"A\\\"B\\n\")"
    );
    let symbol = StockSymbol::Other("AAPL".to_string());
    assert_eq!(symbol.description(), format!("No description for {:?}", symbol));
}

#[test]
fn list_holds_the_nine_funds() {
    assert_eq!(
        StockSymbol::list(),
        [
            StockSymbol::VV,
            StockSymbol::VO,
            StockSymbol::VB,
            StockSymbol::VTC,
            StockSymbol::BND,
            StockSymbol::VXUS,
            StockSymbol::VWO,
            StockSymbol::BNDX,
            StockSymbol::VTIP,
        ]
    );
}

#[test]
fn all_descriptions_are_listed() {
    let descriptions = all_stock_descriptions();
    let lines: Vec<&str> = descriptions.split('\n').collect();
    assert_eq!(lines.len(), 9);
    assert_eq!(lines[0], "VV: US large cap");
    assert_eq!(lines[4], "BND: US total bond");
    assert_eq!(lines[8], "VTIP: Inflation protected securities");
    let mut expected = String::new();
    for symbol in StockSymbol::list() {
        expected.push_str(&symbol.description());
        expected.push('\n');
    }
    expected.pop();
    assert_eq!(descriptions, expected);
}

#[test]
fn tickers_of_the_nine_funds() {
    for symbol in StockSymbol::list() {
        let ticker = symbol.ticker().unwrap();
        assert_eq!(StockSymbol::new(ticker), symbol);
    }
    assert_eq!(StockSymbol::VMFXX.ticker(), None);
    assert_eq!(StockSymbol::Empty.ticker(), None);
    assert_eq!(StockSymbol::Other("AAPL".to_string()).ticker(), None);
}

#[test]
fn duplicate_is_equal() {
    let symbol = StockSymbol::Other("AAPL".to_string());
    assert_eq!(symbol.duplicate(), symbol);
    assert_eq!(StockSymbol::VWO.duplicate(), StockSymbol::VWO);
}

#[test]
fn transaction_types_are_resolved() {
    assert_eq!(TransactionType::new("Dividend"), TransactionType::DIVIDEND);
    assert_eq!(TransactionType::new("Conversion (outgoing)"), TransactionType::CONVERSIONOUT);
    assert_eq!(TransactionType::new("Reinvestment"), TransactionType::REINVESTMENT);
    assert_eq!(TransactionType::new("Advisor fee"), TransactionType::ADVISORFEE);
    assert_eq!(TransactionType::new("Buy"), TransactionType::BUY);
    assert_eq!(TransactionType::new("Conversion (incoming)"), TransactionType::CONVERSIONIN);
    assert_eq!(TransactionType::new("Sell"), TransactionType::SELL);
    assert_eq!(TransactionType::new("Funds Received"), TransactionType::FUNDSRECEIVED);
    assert_eq!(TransactionType::new("Sweep out"), TransactionType::SWEEPOUT);
    assert_eq!(TransactionType::new("Sweep in"), TransactionType::SWEEPIN);
    assert_eq!(TransactionType::new("Distribution"), TransactionType::DISTRIBUTION);
}

#[test]
fn unknown_transaction_types_keep_their_text() {
    assert_eq!(TransactionType::new("Gift"), TransactionType::Other("Gift".to_string()));
    assert_eq!(TransactionType::new("buy"), TransactionType::Other("buy".to_string()));
    assert_eq!(TransactionType::new(""), TransactionType::Other(String::new()));
}
