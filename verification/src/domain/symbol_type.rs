use vstd::prelude::*;

verus! {

/// The kind of instrument behind a symbol.
#[derive(Clone, Copy, Debug, PartialEq, Eq, Structural)]
pub enum SymbolType {
    BOND,
    CFD,
    COMMODITY,
    CRYPTO,
    DR,
    ECONOMIC,
    EQUITY,
    FOREX,
    FUND,
    FUNDAMENTAL,
    FUTURES,
    INDEX,
    OPTION,
    RIGHT,
    SPOT,
    SPREAD,
    STOCK,
    STRUCTURED,
    SWAP,
    WARRANT,
}

impl SymbolType {
    pub open spec fn spec_name(self) -> Seq<char> {
        match self {
            SymbolType::BOND => "BOND"@,
            SymbolType::CFD => "CFD"@,
            SymbolType::COMMODITY => "COMMODITY"@,
            SymbolType::CRYPTO => "CRYPTO"@,
            SymbolType::DR => "DR"@,
            SymbolType::ECONOMIC => "ECONOMIC"@,
            SymbolType::EQUITY => "EQUITY"@,
            SymbolType::FOREX => "FOREX"@,
            SymbolType::FUND => "FUND"@,
            SymbolType::FUNDAMENTAL => "FUNDAMENTAL"@,
            SymbolType::FUTURES => "FUTURES"@,
            SymbolType::INDEX => "INDEX"@,
            SymbolType::OPTION => "OPTION"@,
            SymbolType::RIGHT => "RIGHT"@,
            SymbolType::SPOT => "SPOT"@,
            SymbolType::SPREAD => "SPREAD"@,
            SymbolType::STOCK => "STOCK"@,
            SymbolType::STRUCTURED => "STRUCTURED"@,
            SymbolType::SWAP => "SWAP"@,
            SymbolType::WARRANT => "WARRANT"@,
        }
    }

    /// The variant's name in upper case.
    pub fn name(&self) -> (r: String)
        ensures
            r@ == self.spec_name(),
    {
        match self {
            SymbolType::BOND => "BOND".to_owned(),
            SymbolType::CFD => "CFD".to_owned(),
            SymbolType::COMMODITY => "COMMODITY".to_owned(),
            SymbolType::CRYPTO => "CRYPTO".to_owned(),
            SymbolType::DR => "DR".to_owned(),
            SymbolType::ECONOMIC => "ECONOMIC".to_owned(),
            SymbolType::EQUITY => "EQUITY".to_owned(),
            SymbolType::FOREX => "FOREX".to_owned(),
            SymbolType::FUND => "FUND".to_owned(),
            SymbolType::FUNDAMENTAL => "FUNDAMENTAL".to_owned(),
            SymbolType::FUTURES => "FUTURES".to_owned(),
            SymbolType::INDEX => "INDEX".to_owned(),
            SymbolType::OPTION => "OPTION".to_owned(),
            SymbolType::RIGHT => "RIGHT".to_owned(),
            SymbolType::SPOT => "SPOT".to_owned(),
            SymbolType::SPREAD => "SPREAD".to_owned(),
            SymbolType::STOCK => "STOCK".to_owned(),
            SymbolType::STRUCTURED => "STRUCTURED".to_owned(),
            SymbolType::SWAP => "SWAP".to_owned(),
            SymbolType::WARRANT => "WARRANT".to_owned(),
        }
    }
}

} // verus!
