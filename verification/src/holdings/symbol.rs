//! The supported fund symbols.
use crate::text::{quote, quoted, same_text};
use vstd::prelude::*;
use vstd::string::StringExecFns;

verus! {

/// A fund symbol. The nine funds that a rebalance buys and sells are named, as
/// is the money market fund that holds cash. `Empty` marks a symbol that was
/// never set, and `Other` stands for every symbol that is not supported: its
/// values are summed into one slot, from which a single fund cannot be read
/// back.
#[derive(Clone, Eq, Hash, PartialEq, Debug)]
pub enum StockSymbol {
    /// Total international stock.
    VXUS,
    /// Total international bond.
    BNDX,
    /// Inflation protected securities.
    VTIP,
    /// US total bond.
    BND,
    /// Emerging markets stock.
    VWO,
    /// US mid cap.
    VO,
    /// US small cap.
    VB,
    /// US total corporate bond.
    VTC,
    /// US large cap.
    VV,
    /// Money market fund: cash.
    VMFXX,
    /// No symbol was set.
    Empty,
    /// A symbol that is not supported.
    Other(String),
}

/// What a symbol stands for when amounts are kept by symbol: one of the
/// supported funds, cash, nothing, or the unsupported funds taken together.
#[derive(Clone, Copy, PartialEq, Eq, Debug, Structural)]
pub enum Fund {
    VXUS,
    BNDX,
    VTIP,
    BND,
    VWO,
    VO,
    VB,
    VTC,
    VV,
    VMFXX,
    Empty,
    Other,
}

/// What a text names. Each supported fund is named by its ticker in capital
/// letters, and nothing by the empty text; every other text names an unsupported
/// fund.
pub open spec fn fund_named(text: Seq<char>) -> Fund {
    if text == "VXUS"@ {
        Fund::VXUS
    } else if text == "BNDX"@ {
        Fund::BNDX
    } else if text == "VTIP"@ {
        Fund::VTIP
    } else if text == "BND"@ {
        Fund::BND
    } else if text == "VWO"@ {
        Fund::VWO
    } else if text == "VO"@ {
        Fund::VO
    } else if text == "VB"@ {
        Fund::VB
    } else if text == "VTC"@ {
        Fund::VTC
    } else if text == "VV"@ {
        Fund::VV
    } else if text == "VMFXX"@ {
        Fund::VMFXX
    } else if text == ""@ {
        Fund::Empty
    } else {
        Fund::Other
    }
}

/// Each ticker names its own fund, and the empty text names nothing.
pub proof fn lemma_tickers_name_their_funds()
    ensures
        fund_named("VXUS"@) == Fund::VXUS,
        fund_named("BNDX"@) == Fund::BNDX,
        fund_named("VTIP"@) == Fund::VTIP,
        fund_named("BND"@) == Fund::BND,
        fund_named("VWO"@) == Fund::VWO,
        fund_named("VO"@) == Fund::VO,
        fund_named("VB"@) == Fund::VB,
        fund_named("VTC"@) == Fund::VTC,
        fund_named("VV"@) == Fund::VV,
        fund_named("VMFXX"@) == Fund::VMFXX,
        fund_named(""@) == Fund::Empty,
{
    reveal_strlit("VXUS");
    reveal_strlit("BNDX");
    reveal_strlit("VTIP");
    reveal_strlit("BND");
    reveal_strlit("VWO");
    reveal_strlit("VO");
    reveal_strlit("VB");
    reveal_strlit("VTC");
    reveal_strlit("VV");
    reveal_strlit("VMFXX");
    reveal_strlit("");
    assert("VXUS"@.len() == 4 && "BNDX"@.len() == 4 && "VTIP"@.len() == 4);
    assert("BND"@.len() == 3 && "VWO"@.len() == 3 && "VTC"@.len() == 3);
    assert("VO"@.len() == 2 && "VB"@.len() == 2 && "VV"@.len() == 2);
    assert("VMFXX"@.len() == 5 && ""@.len() == 0);
    assert("VXUS"@[0] == 'V' && "VXUS"@[1] == 'X');
    assert("BNDX"@[0] == 'B');
    assert("VTIP"@[0] == 'V' && "VTIP"@[1] == 'T');
    assert("BND"@[0] == 'B');
    assert("VWO"@[0] == 'V' && "VWO"@[1] == 'W');
    assert("VTC"@[0] == 'V' && "VTC"@[1] == 'T');
    assert("VO"@[1] == 'O');
    assert("VB"@[1] == 'B');
    assert("VV"@[1] == 'V');
}

impl StockSymbol {
    /// What the symbol stands for.
    pub open spec fn fund(self) -> Fund {
        match self {
            StockSymbol::VXUS => Fund::VXUS,
            StockSymbol::BNDX => Fund::BNDX,
            StockSymbol::VTIP => Fund::VTIP,
            StockSymbol::BND => Fund::BND,
            StockSymbol::VWO => Fund::VWO,
            StockSymbol::VO => Fund::VO,
            StockSymbol::VB => Fund::VB,
            StockSymbol::VTC => Fund::VTC,
            StockSymbol::VV => Fund::VV,
            StockSymbol::VMFXX => Fund::VMFXX,
            StockSymbol::Empty => Fund::Empty,
            StockSymbol::Other(_) => Fund::Other,
        }
    }

    /// Whether this is the symbol that a text names: it stands for what the text
    /// names, and an unsupported symbol keeps the text.
    pub open spec fn is_named(self, text: Seq<char>) -> bool {
        self.fund() == fund_named(text) && (self matches StockSymbol::Other(name) ==> name@
            == text)
    }

    /// The symbol that a text names.
    pub fn new(symbol: &str) -> (r: StockSymbol)
        ensures
            r.is_named(symbol@),
    {
        if same_text(symbol, "VXUS") {
            StockSymbol::VXUS
        } else if same_text(symbol, "BNDX") {
            StockSymbol::BNDX
        } else if same_text(symbol, "VTIP") {
            StockSymbol::VTIP
        } else if same_text(symbol, "BND") {
            StockSymbol::BND
        } else if same_text(symbol, "VWO") {
            StockSymbol::VWO
        } else if same_text(symbol, "VO") {
            StockSymbol::VO
        } else if same_text(symbol, "VB") {
            StockSymbol::VB
        } else if same_text(symbol, "VTC") {
            StockSymbol::VTC
        } else if same_text(symbol, "VV") {
            StockSymbol::VV
        } else if same_text(symbol, "VMFXX") {
            StockSymbol::VMFXX
        } else if same_text(symbol, "") {
            StockSymbol::Empty
        } else {
            StockSymbol::Other(symbol.to_owned())
        }
    }

    /// The description of a symbol: the ticker and what the fund holds, for the
    /// nine funds that a rebalance trades; for any other symbol the statement
    /// that there is none, with the symbol as `{:?}` writes it.
    pub open spec fn description_text(self) -> Seq<char> {
        match self {
            StockSymbol::VV => "VV: US large cap"@,
            StockSymbol::VO => "VO: US mid cap"@,
            StockSymbol::VB => "VB: US small cap"@,
            StockSymbol::VTC => "VTC: US total corporate bond"@,
            StockSymbol::BND => "BND: US total bond"@,
            StockSymbol::VXUS => "VXUS: Total international stock"@,
            StockSymbol::VWO => "VWO: Emerging markets stock"@,
            StockSymbol::BNDX => "BNDX: Total international bond"@,
            StockSymbol::VTIP => "VTIP: Inflation protected securities"@,
            StockSymbol::VMFXX => "No description for VMFXX"@,
            StockSymbol::Empty => "No description for Empty"@,
            StockSymbol::Other(name) => "No description for Other("@ + quoted(name@) + ")"@,
        }
    }

    /// The description of a symbol.
    pub fn description(&self) -> (r: String)
        ensures
            r@ == self.description_text(),
    {
        match self {
            StockSymbol::VV => String::from_str("VV: US large cap"),
            StockSymbol::VO => String::from_str("VO: US mid cap"),
            StockSymbol::VB => String::from_str("VB: US small cap"),
            StockSymbol::VTC => String::from_str("VTC: US total corporate bond"),
            StockSymbol::BND => String::from_str("BND: US total bond"),
            StockSymbol::VXUS => String::from_str("VXUS: Total international stock"),
            StockSymbol::VWO => String::from_str("VWO: Emerging markets stock"),
            StockSymbol::BNDX => String::from_str("BNDX: Total international bond"),
            StockSymbol::VTIP => String::from_str("VTIP: Inflation protected securities"),
            StockSymbol::VMFXX => String::from_str("No description for VMFXX"),
            StockSymbol::Empty => String::from_str("No description for Empty"),
            StockSymbol::Other(name) => {
                let mut text = String::from_str("No description for Other(");
                let inner = quote(name.as_str());
                text.append(inner.as_str());
                text.append(")");
                text
            },
        }
    }

    /// The ticker under which a price is quoted for the symbol: there is one for
    /// each of the nine funds that a rebalance trades, and none for any other
    /// symbol, whose price stays at one dollar.
    pub fn ticker(&self) -> (r: Option<&'static str>)
        ensures
            r is Some <==> self.is_tradable(),
            r matches Some(name) ==> fund_named(name@) == self.fund(),
    {
        proof {
            lemma_tickers_name_their_funds();
        }
        match self {
            StockSymbol::VO => Some("VO"),
            StockSymbol::VB => Some("VB"),
            StockSymbol::VV => Some("VV"),
            StockSymbol::BND => Some("BND"),
            StockSymbol::VWO => Some("VWO"),
            StockSymbol::VTC => Some("VTC"),
            StockSymbol::VXUS => Some("VXUS"),
            StockSymbol::BNDX => Some("BNDX"),
            StockSymbol::VTIP => Some("VTIP"),
            _ => None,
        }
    }

    /// Whether this is one of the nine funds that a rebalance trades.
    pub open spec fn is_tradable(self) -> bool {
        !(self is VMFXX || self is Empty || self is Other)
    }

    /// A copy of the symbol.
    pub fn duplicate(&self) -> (r: StockSymbol)
        ensures
            r == *self,
    {
        match self {
            StockSymbol::VXUS => StockSymbol::VXUS,
            StockSymbol::BNDX => StockSymbol::BNDX,
            StockSymbol::VTIP => StockSymbol::VTIP,
            StockSymbol::BND => StockSymbol::BND,
            StockSymbol::VWO => StockSymbol::VWO,
            StockSymbol::VO => StockSymbol::VO,
            StockSymbol::VB => StockSymbol::VB,
            StockSymbol::VTC => StockSymbol::VTC,
            StockSymbol::VV => StockSymbol::VV,
            StockSymbol::VMFXX => StockSymbol::VMFXX,
            StockSymbol::Empty => StockSymbol::Empty,
            StockSymbol::Other(name) => StockSymbol::Other(name.clone()),
        }
    }

    /// The nine tradable funds, in the order in which they are displayed.
    pub open spec fn listed() -> Seq<StockSymbol> {
        seq![
            StockSymbol::VV,
            StockSymbol::VO,
            StockSymbol::VB,
            StockSymbol::VTC,
            StockSymbol::BND,
            StockSymbol::VXUS,
            StockSymbol::VWO,
            StockSymbol::BNDX,
            StockSymbol::VTIP,
        ]
    }

    /// The nine tradable funds, in the order in which they are displayed.
    pub fn list() -> (r: [StockSymbol; 9])
        ensures
            r@ == Self::listed(),
    {
        [
            StockSymbol::VV,
            StockSymbol::VO,
            StockSymbol::VB,
            StockSymbol::VTC,
            StockSymbol::BND,
            StockSymbol::VXUS,
            StockSymbol::VWO,
            StockSymbol::BNDX,
            StockSymbol::VTIP,
        ]
    }
}

/// The descriptions of the nine funds that a rebalance trades, one on each line,
/// in the order in which the funds are displayed.
pub open spec fn all_descriptions_text() -> Seq<char> {
    StockSymbol::VV.description_text() + "\n"@ + StockSymbol::VO.description_text() + "\n"@
        + StockSymbol::VB.description_text() + "\n"@ + StockSymbol::VTC.description_text()
        + "\n"@ + StockSymbol::BND.description_text() + "\n"@
        + StockSymbol::VXUS.description_text() + "\n"@ + StockSymbol::VWO.description_text()
        + "\n"@ + StockSymbol::BNDX.description_text() + "\n"@
        + StockSymbol::VTIP.description_text()
}

/// The descriptions of the nine funds that a rebalance trades, one on each line.
pub fn all_stock_descriptions() -> (r: String)
    ensures
        r@ == all_descriptions_text(),
{
    let symbols = StockSymbol::list();
    let mut descriptions = symbols[0].description();
    descriptions.append("\n");
    descriptions.append(symbols[1].description().as_str());
    descriptions.append("\n");
    descriptions.append(symbols[2].description().as_str());
    descriptions.append("\n");
    descriptions.append(symbols[3].description().as_str());
    descriptions.append("\n");
    descriptions.append(symbols[4].description().as_str());
    descriptions.append("\n");
    descriptions.append(symbols[5].description().as_str());
    descriptions.append("\n");
    descriptions.append(symbols[6].description().as_str());
    descriptions.append("\n");
    descriptions.append(symbols[7].description().as_str());
    descriptions.append("\n");
    descriptions.append(symbols[8].description().as_str());
    descriptions
}

} // verus!
