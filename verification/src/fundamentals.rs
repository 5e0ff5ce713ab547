//! Financial statements via the timeseries endpoint: which metrics each
//! statement asks for, and how a reply key names its metric.

use vstd::prelude::*;

use vstd::string::StrSliceExecFns;

use crate::request::period_prefix;
use crate::text::{chars_eq, chars_of};

verus! {

/// Which financial statement to request.
#[derive(Debug, Clone, Copy, PartialEq, Eq, Structural)]
pub enum FundamentalsKind {
    /// Income statement (revenue, net income, EPS, …).
    IncomeStatement,
    /// Balance sheet (assets, liabilities, equity).
    BalanceSheet,
    /// Cash flow statement.
    CashFlow,
}

impl Default for FundamentalsKind {
    fn default() -> (r: Self)
        ensures
            r == FundamentalsKind::IncomeStatement,
    {
        FundamentalsKind::IncomeStatement
    }
}

/// Income-statement metric names, in request order.
pub open spec fn income_keys() -> Seq<Seq<char>> {
    seq![
        "TaxEffectOfUnusualItems"@,
        "TaxRateForCalcs"@,
        "NormalizedEBITDA"@,
        "NormalizedDilutedEPS"@,
        "NormalizedBasicEPS"@,
        "TotalUnusualItems"@,
        "TotalUnusualItemsExcludingGoodwill"@,
        "NetIncomeFromContinuingOperationNetMinorityInterest"@,
        "ReconciledDepreciation"@,
        "ReconciledCostOfRevenue"@,
        "EBITDA"@,
        "EBIT"@,
        "NetInterestIncome"@,
        "InterestExpense"@,
        "InterestIncome"@,
        "ContinuingAndDiscontinuedDilutedEPS"@,
        "ContinuingAndDiscontinuedBasicEPS"@,
        "NormalizedIncome"@,
        "NetIncomeFromContinuingAndDiscontinuedOperation"@,
        "TotalExpenses"@,
        "RentExpenseSupplemental"@,
        "ReportedNormalizedDilutedEPS"@,
        "ReportedNormalizedBasicEPS"@,
        "TotalOperatingIncomeAsReported"@,
        "DividendPerShare"@,
        "DilutedAverageShares"@,
        "BasicAverageShares"@,
        "DilutedEPS"@,
        "BasicEPS"@,
        "DilutedNIAvailtoComStockholders"@,
        "AverageDilutionEarnings"@,
        "NetIncomeCommonStockholders"@,
        "PreferredStockDividends"@,
        "NetIncome"@,
        "MinorityInterests"@,
        "NetIncomeIncludingNoncontrollingInterests"@,
        "NetIncomeContinuousOperations"@,
        "TaxProvision"@,
        "PretaxIncome"@,
        "OtherIncomeExpense"@,
        "OtherNonOperatingIncomeExpenses"@,
        "SpecialIncomeCharges"@,
        "GainOnSaleOfPPE"@,
        "GainOnSaleOfBusiness"@,
        "OtherSpecialCharges"@,
        "WriteOff"@,
        "ImpairmentOfCapitalAssets"@,
        "RestructuringAndMergernAcquisition"@,
        "EarningsFromEquityInterest"@,
        "GainOnSaleOfSecurity"@,
        "NetNonOperatingInterestIncomeExpense"@,
        "TotalOtherFinanceCost"@,
        "InterestExpenseNonOperating"@,
        "InterestIncomeNonOperating"@,
        "OperatingIncome"@,
        "OperatingExpense"@,
        "OtherOperatingExpenses"@,
        "OtherTaxes"@,
        "ProvisionForDoubtfulAccounts"@,
        "DepreciationAmortizationDepletionIncomeStatement"@,
        "DepreciationAndAmortizationInIncomeStatement"@,
        "Amortization"@,
        "AmortizationOfIntangiblesIncomeStatement"@,
        "DepreciationIncomeStatement"@,
        "ResearchAndDevelopment"@,
        "SellingGeneralAndAdministration"@,
        "SellingAndMarketingExpense"@,
        "GeneralAndAdministrativeExpense"@,
        "OtherGandA"@,
        "InsuranceAndClaims"@,
        "RentAndLandingFees"@,
        "SalariesAndWages"@,
        "GrossProfit"@,
        "CostOfRevenue"@,
        "TotalRevenue"@,
        "ExciseTaxes"@,
        "OperatingRevenue"@,
        "OccupancyAndEquipment"@,
        "OtherNonInterestExpense"@,
    ]
}

/// Balance-sheet metric names, in request order.
pub open spec fn balance_keys() -> Seq<Seq<char>> {
    seq![
        "TreasurySharesNumber"@,
        "PreferredSharesNumber"@,
        "OrdinarySharesNumber"@,
        "ShareIssued"@,
        "NetDebt"@,
        "TotalDebt"@,
        "TangibleBookValue"@,
        "InvestedCapital"@,
        "WorkingCapital"@,
        "NetTangibleAssets"@,
        "CapitalLeaseObligations"@,
        "CommonStockEquity"@,
        "PreferredStockEquity"@,
        "TotalCapitalization"@,
        "TotalEquityGrossMinorityInterest"@,
        "MinorityInterest"@,
        "StockholdersEquity"@,
        "OtherEquityInterest"@,
        "GainsLossesNotAffectingRetainedEarnings"@,
        "OtherEquityAdjustments"@,
        "ForeignCurrencyTranslationAdjustments"@,
        "MinimumPensionLiabilities"@,
        "UnrealizedGainLoss"@,
        "TreasuryStock"@,
        "RetainedEarnings"@,
        "AdditionalPaidInCapital"@,
        "CapitalStock"@,
        "CommonStock"@,
        "PreferredStock"@,
        "TotalLiabilitiesNetMinorityInterest"@,
        "TotalNonCurrentLiabilitiesNetMinorityInterest"@,
        "OtherNonCurrentLiabilities"@,
        "LiabilitiesHeldforSaleNonCurrent"@,
        "EmployeeBenefits"@,
        "NonCurrentPensionAndOtherPostretirementBenefitPlans"@,
        "NonCurrentAccruedExpenses"@,
        "TradeandOtherPayablesNonCurrent"@,
        "NonCurrentDeferredLiabilities"@,
        "NonCurrentDeferredRevenue"@,
        "NonCurrentDeferredTaxesLiabilities"@,
        "LongTermDebtAndCapitalLeaseObligation"@,
        "LongTermCapitalLeaseObligation"@,
        "LongTermDebt"@,
        "LongTermProvisions"@,
        "CurrentLiabilities"@,
        "OtherCurrentLiabilities"@,
        "CurrentDeferredLiabilities"@,
        "CurrentDeferredRevenue"@,
        "CurrentDeferredTaxesLiabilities"@,
        "CurrentDebtAndCapitalLeaseObligation"@,
        "CurrentCapitalLeaseObligation"@,
        "CurrentDebt"@,
        "OtherCurrentBorrowings"@,
        "LineOfCredit"@,
        "CommercialPaper"@,
        "CurrentNotesPayable"@,
        "PayablesAndAccruedExpenses"@,
        "CurrentAccruedExpenses"@,
        "InterestPayable"@,
        "Payables"@,
        "DividendsPayable"@,
        "TotalTaxPayable"@,
        "IncomeTaxPayable"@,
        "AccountsPayable"@,
        "TotalAssets"@,
        "TotalNonCurrentAssets"@,
        "OtherNonCurrentAssets"@,
        "DefinedPensionBenefit"@,
        "NonCurrentPrepaidAssets"@,
        "NonCurrentDeferredAssets"@,
        "NonCurrentDeferredTaxesAssets"@,
        "NonCurrentNoteReceivables"@,
        "NonCurrentAccountsReceivable"@,
        "FinancialAssets"@,
        "InvestmentsAndAdvances"@,
        "OtherInvestments"@,
        "InvestmentinFinancialAssets"@,
        "HeldToMaturitySecurities"@,
        "AvailableForSaleSecurities"@,
        "TradingSecurities"@,
        "LongTermEquityInvestment"@,
        "InvestmentProperties"@,
        "GoodwillAndOtherIntangibleAssets"@,
        "OtherIntangibleAssets"@,
        "Goodwill"@,
        "NetPPE"@,
        "AccumulatedDepreciation"@,
        "GrossPPE"@,
        "Leases"@,
        "ConstructionInProgress"@,
        "OtherProperties"@,
        "MachineryFurnitureEquipment"@,
        "BuildingsAndImprovements"@,
        "LandAndImprovements"@,
        "Properties"@,
        "CurrentAssets"@,
        "OtherCurrentAssets"@,
        "HedgingAssetsCurrent"@,
        "AssetsHeldForSaleCurrent"@,
        "CurrentDeferredAssets"@,
        "CurrentDeferredTaxesAssets"@,
        "RestrictedCash"@,
        "PrepaidAssets"@,
        "Inventory"@,
        "FinishedGoods"@,
        "WorkInProcess"@,
        "RawMaterials"@,
        "Receivables"@,
        "OtherReceivables"@,
        "TaxesReceivable"@,
        "AccruedInterestReceivable"@,
        "NotesReceivable"@,
        "LoansReceivable"@,
        "AccountsReceivable"@,
        "GrossAccountsReceivable"@,
        "CashCashEquivalentsAndShortTermInvestments"@,
        "OtherShortTermInvestments"@,
        "CashAndCashEquivalents"@,
        "CashEquivalents"@,
        "CashFinancial"@,
    ]
}

/// Cash-flow metric names, in request order.
pub open spec fn cashflow_keys() -> Seq<Seq<char>> {
    seq![
        "ForeignSales"@,
        "DomesticSales"@,
        "FreeCashFlow"@,
        "RepurchaseOfCapitalStock"@,
        "RepaymentOfDebt"@,
        "IssuanceOfDebt"@,
        "IssuanceOfCapitalStock"@,
        "CapitalExpenditure"@,
        "InterestPaidSupplementalData"@,
        "IncomeTaxPaidSupplementalData"@,
        "EndCashPosition"@,
        "BeginningCashPosition"@,
        "EffectOfExchangeRateChanges"@,
        "ChangesInCash"@,
        "CashFlowFromDiscontinuedOperation"@,
        "FinancingCashFlow"@,
        "CashFlowFromContinuingFinancingActivities"@,
        "NetOtherFinancingCharges"@,
        "InterestPaidCFF"@,
        "ProceedsFromStockOptionExercised"@,
        "CashDividendsPaid"@,
        "PreferredStockDividendPaid"@,
        "CommonStockDividendPaid"@,
        "NetPreferredStockIssuance"@,
        "PreferredStockPayments"@,
        "PreferredStockIssuance"@,
        "NetCommonStockIssuance"@,
        "CommonStockPayments"@,
        "CommonStockIssuance"@,
        "NetIssuancePaymentsOfDebt"@,
        "NetShortTermDebtIssuance"@,
        "ShortTermDebtPayments"@,
        "ShortTermDebtIssuance"@,
        "NetLongTermDebtIssuance"@,
        "LongTermDebtPayments"@,
        "LongTermDebtIssuance"@,
        "InvestingCashFlow"@,
        "CashFlowFromContinuingInvestingActivities"@,
        "NetOtherInvestingChanges"@,
        "NetInvestmentPurchaseAndSale"@,
        "SaleOfInvestment"@,
        "PurchaseOfInvestment"@,
        "NetBusinessPurchaseAndSale"@,
        "SaleOfBusiness"@,
        "PurchaseOfBusiness"@,
        "NetIntangiblesPurchaseAndSale"@,
        "SaleOfIntangibles"@,
        "PurchaseOfIntangibles"@,
        "NetPPEPurchaseAndSale"@,
        "SaleOfPPE"@,
        "PurchaseOfPPE"@,
        "CapitalExpenditureReported"@,
        "OperatingCashFlow"@,
        "CashFlowFromContinuingOperatingActivities"@,
        "TaxesRefundPaid"@,
        "InterestPaidCFO"@,
        "DividendPaidCFO"@,
        "ChangeInWorkingCapital"@,
        "ChangeInOtherWorkingCapital"@,
        "ChangeInOtherCurrentLiabilities"@,
        "ChangeInOtherCurrentAssets"@,
        "ChangeInPayablesAndAccruedExpense"@,
        "ChangeInAccruedExpense"@,
        "ChangeInPayable"@,
        "ChangeInAccountPayable"@,
        "ChangeInTaxPayable"@,
        "ChangeInIncomeTaxPayable"@,
        "ChangeInPrepaidAssets"@,
        "ChangeInInventory"@,
        "ChangeInReceivables"@,
        "ChangesInAccountReceivables"@,
        "OtherNonCashItems"@,
        "StockBasedCompensation"@,
        "UnrealizedGainLossOnInvestmentSecurities"@,
        "ProvisionandWriteOffofAssets"@,
        "AssetImpairmentCharge"@,
        "DeferredTax"@,
        "DeferredIncomeTax"@,
        "DepreciationAmortizationDepletion"@,
        "DepreciationAndAmortization"@,
        "AmortizationCashFlow"@,
        "AmortizationOfIntangibles"@,
        "Depreciation"@,
        "OperatingGainsLosses"@,
        "NetForeignCurrencyExchangeGainLoss"@,
        "GainLossOnSaleOfPPE"@,
        "GainLossOnSaleOfBusiness"@,
        "NetIncomeFromContinuingOperations"@,
    ]
}

pub open spec fn kind_keys(k: FundamentalsKind) -> Seq<Seq<char>> {
    match k {
        FundamentalsKind::IncomeStatement => income_keys(),
        FundamentalsKind::BalanceSheet => balance_keys(),
        FundamentalsKind::CashFlow => cashflow_keys(),
    }
}

pub open spec fn strs_view(v: Seq<&str>) -> Seq<Seq<char>> {
    v.map_values(|s: &str| s@)
}

/// A metric name as the timeseries endpoint takes it after a period prefix:
/// non-empty and starting with an upper-case ASCII letter.
pub open spec fn bare_metric(name: Seq<char>) -> bool {
    name.len() > 0 && 'A' <= name[0] <= 'Z'
}

proof fn lemma_income_keys_bare()
    ensures
        forall|i: int| 0 <= i < income_keys().len() ==> bare_metric(#[trigger] income_keys()[i]),
{
    reveal_strlit("TaxEffectOfUnusualItems");
    reveal_strlit("TaxRateForCalcs");
    reveal_strlit("NormalizedEBITDA");
    reveal_strlit("NormalizedDilutedEPS");
    reveal_strlit("NormalizedBasicEPS");
    reveal_strlit("TotalUnusualItems");
    reveal_strlit("TotalUnusualItemsExcludingGoodwill");
    reveal_strlit("NetIncomeFromContinuingOperationNetMinorityInterest");
    reveal_strlit("ReconciledDepreciation");
    reveal_strlit("ReconciledCostOfRevenue");
    reveal_strlit("EBITDA");
    reveal_strlit("EBIT");
    reveal_strlit("NetInterestIncome");
    reveal_strlit("InterestExpense");
    reveal_strlit("InterestIncome");
    reveal_strlit("ContinuingAndDiscontinuedDilutedEPS");
    reveal_strlit("ContinuingAndDiscontinuedBasicEPS");
    reveal_strlit("NormalizedIncome");
    reveal_strlit("NetIncomeFromContinuingAndDiscontinuedOperation");
    reveal_strlit("TotalExpenses");
    reveal_strlit("RentExpenseSupplemental");
    reveal_strlit("ReportedNormalizedDilutedEPS");
    reveal_strlit("ReportedNormalizedBasicEPS");
    reveal_strlit("TotalOperatingIncomeAsReported");
    reveal_strlit("DividendPerShare");
    reveal_strlit("DilutedAverageShares");
    reveal_strlit("BasicAverageShares");
    reveal_strlit("DilutedEPS");
    reveal_strlit("BasicEPS");
    reveal_strlit("DilutedNIAvailtoComStockholders");
    reveal_strlit("AverageDilutionEarnings");
    reveal_strlit("NetIncomeCommonStockholders");
    reveal_strlit("PreferredStockDividends");
    reveal_strlit("NetIncome");
    reveal_strlit("MinorityInterests");
    reveal_strlit("NetIncomeIncludingNoncontrollingInterests");
    reveal_strlit("NetIncomeContinuousOperations");
    reveal_strlit("TaxProvision");
    reveal_strlit("PretaxIncome");
    reveal_strlit("OtherIncomeExpense");
    reveal_strlit("OtherNonOperatingIncomeExpenses");
    reveal_strlit("SpecialIncomeCharges");
    reveal_strlit("GainOnSaleOfPPE");
    reveal_strlit("GainOnSaleOfBusiness");
    reveal_strlit("OtherSpecialCharges");
    reveal_strlit("WriteOff");
    reveal_strlit("ImpairmentOfCapitalAssets");
    reveal_strlit("RestructuringAndMergernAcquisition");
    reveal_strlit("EarningsFromEquityInterest");
    reveal_strlit("GainOnSaleOfSecurity");
    reveal_strlit("NetNonOperatingInterestIncomeExpense");
    reveal_strlit("TotalOtherFinanceCost");
    reveal_strlit("InterestExpenseNonOperating");
    reveal_strlit("InterestIncomeNonOperating");
    reveal_strlit("OperatingIncome");
    reveal_strlit("OperatingExpense");
    reveal_strlit("OtherOperatingExpenses");
    reveal_strlit("OtherTaxes");
    reveal_strlit("ProvisionForDoubtfulAccounts");
    reveal_strlit("DepreciationAmortizationDepletionIncomeStatement");
    reveal_strlit("DepreciationAndAmortizationInIncomeStatement");
    reveal_strlit("Amortization");
    reveal_strlit("AmortizationOfIntangiblesIncomeStatement");
    reveal_strlit("DepreciationIncomeStatement");
    reveal_strlit("ResearchAndDevelopment");
    reveal_strlit("SellingGeneralAndAdministration");
    reveal_strlit("SellingAndMarketingExpense");
    reveal_strlit("GeneralAndAdministrativeExpense");
    reveal_strlit("OtherGandA");
    reveal_strlit("InsuranceAndClaims");
    reveal_strlit("RentAndLandingFees");
    reveal_strlit("SalariesAndWages");
    reveal_strlit("GrossProfit");
    reveal_strlit("CostOfRevenue");
    reveal_strlit("TotalRevenue");
    reveal_strlit("ExciseTaxes");
    reveal_strlit("OperatingRevenue");
    reveal_strlit("OccupancyAndEquipment");
    reveal_strlit("OtherNonInterestExpense");
}

proof fn lemma_balance_keys_bare()
    ensures
        forall|i: int| 0 <= i < balance_keys().len() ==> bare_metric(#[trigger] balance_keys()[i]),
{
    reveal_strlit("TreasurySharesNumber");
    reveal_strlit("PreferredSharesNumber");
    reveal_strlit("OrdinarySharesNumber");
    reveal_strlit("ShareIssued");
    reveal_strlit("NetDebt");
    reveal_strlit("TotalDebt");
    reveal_strlit("TangibleBookValue");
    reveal_strlit("InvestedCapital");
    reveal_strlit("WorkingCapital");
    reveal_strlit("NetTangibleAssets");
    reveal_strlit("CapitalLeaseObligations");
    reveal_strlit("CommonStockEquity");
    reveal_strlit("PreferredStockEquity");
    reveal_strlit("TotalCapitalization");
    reveal_strlit("TotalEquityGrossMinorityInterest");
    reveal_strlit("MinorityInterest");
    reveal_strlit("StockholdersEquity");
    reveal_strlit("OtherEquityInterest");
    reveal_strlit("GainsLossesNotAffectingRetainedEarnings");
    reveal_strlit("OtherEquityAdjustments");
    reveal_strlit("ForeignCurrencyTranslationAdjustments");
    reveal_strlit("MinimumPensionLiabilities");
    reveal_strlit("UnrealizedGainLoss");
    reveal_strlit("TreasuryStock");
    reveal_strlit("RetainedEarnings");
    reveal_strlit("AdditionalPaidInCapital");
    reveal_strlit("CapitalStock");
    reveal_strlit("CommonStock");
    reveal_strlit("PreferredStock");
    reveal_strlit("TotalLiabilitiesNetMinorityInterest");
    reveal_strlit("TotalNonCurrentLiabilitiesNetMinorityInterest");
    reveal_strlit("OtherNonCurrentLiabilities");
    reveal_strlit("LiabilitiesHeldforSaleNonCurrent");
    reveal_strlit("EmployeeBenefits");
    reveal_strlit("NonCurrentPensionAndOtherPostretirementBenefitPlans");
    reveal_strlit("NonCurrentAccruedExpenses");
    reveal_strlit("TradeandOtherPayablesNonCurrent");
    reveal_strlit("NonCurrentDeferredLiabilities");
    reveal_strlit("NonCurrentDeferredRevenue");
    reveal_strlit("NonCurrentDeferredTaxesLiabilities");
    reveal_strlit("LongTermDebtAndCapitalLeaseObligation");
    reveal_strlit("LongTermCapitalLeaseObligation");
    reveal_strlit("LongTermDebt");
    reveal_strlit("LongTermProvisions");
    reveal_strlit("CurrentLiabilities");
    reveal_strlit("OtherCurrentLiabilities");
    reveal_strlit("CurrentDeferredLiabilities");
    reveal_strlit("CurrentDeferredRevenue");
    reveal_strlit("CurrentDeferredTaxesLiabilities");
    reveal_strlit("CurrentDebtAndCapitalLeaseObligation");
    reveal_strlit("CurrentCapitalLeaseObligation");
    reveal_strlit("CurrentDebt");
    reveal_strlit("OtherCurrentBorrowings");
    reveal_strlit("LineOfCredit");
    reveal_strlit("CommercialPaper");
    reveal_strlit("CurrentNotesPayable");
    reveal_strlit("PayablesAndAccruedExpenses");
    reveal_strlit("CurrentAccruedExpenses");
    reveal_strlit("InterestPayable");
    reveal_strlit("Payables");
    reveal_strlit("DividendsPayable");
    reveal_strlit("TotalTaxPayable");
    reveal_strlit("IncomeTaxPayable");
    reveal_strlit("AccountsPayable");
    reveal_strlit("TotalAssets");
    reveal_strlit("TotalNonCurrentAssets");
    reveal_strlit("OtherNonCurrentAssets");
    reveal_strlit("DefinedPensionBenefit");
    reveal_strlit("NonCurrentPrepaidAssets");
    reveal_strlit("NonCurrentDeferredAssets");
    reveal_strlit("NonCurrentDeferredTaxesAssets");
    reveal_strlit("NonCurrentNoteReceivables");
    reveal_strlit("NonCurrentAccountsReceivable");
    reveal_strlit("FinancialAssets");
    reveal_strlit("InvestmentsAndAdvances");
    reveal_strlit("OtherInvestments");
    reveal_strlit("InvestmentinFinancialAssets");
    reveal_strlit("HeldToMaturitySecurities");
    reveal_strlit("AvailableForSaleSecurities");
    reveal_strlit("TradingSecurities");
    reveal_strlit("LongTermEquityInvestment");
    reveal_strlit("InvestmentProperties");
    reveal_strlit("GoodwillAndOtherIntangibleAssets");
    reveal_strlit("OtherIntangibleAssets");
    reveal_strlit("Goodwill");
    reveal_strlit("NetPPE");
    reveal_strlit("AccumulatedDepreciation");
    reveal_strlit("GrossPPE");
    reveal_strlit("Leases");
    reveal_strlit("ConstructionInProgress");
    reveal_strlit("OtherProperties");
    reveal_strlit("MachineryFurnitureEquipment");
    reveal_strlit("BuildingsAndImprovements");
    reveal_strlit("LandAndImprovements");
    reveal_strlit("Properties");
    reveal_strlit("CurrentAssets");
    reveal_strlit("OtherCurrentAssets");
    reveal_strlit("HedgingAssetsCurrent");
    reveal_strlit("AssetsHeldForSaleCurrent");
    reveal_strlit("CurrentDeferredAssets");
    reveal_strlit("CurrentDeferredTaxesAssets");
    reveal_strlit("RestrictedCash");
    reveal_strlit("PrepaidAssets");
    reveal_strlit("Inventory");
    reveal_strlit("FinishedGoods");
    reveal_strlit("WorkInProcess");
    reveal_strlit("RawMaterials");
    reveal_strlit("Receivables");
    reveal_strlit("OtherReceivables");
    reveal_strlit("TaxesReceivable");
    reveal_strlit("AccruedInterestReceivable");
    reveal_strlit("NotesReceivable");
    reveal_strlit("LoansReceivable");
    reveal_strlit("AccountsReceivable");
    reveal_strlit("GrossAccountsReceivable");
    reveal_strlit("CashCashEquivalentsAndShortTermInvestments");
    reveal_strlit("OtherShortTermInvestments");
    reveal_strlit("CashAndCashEquivalents");
    reveal_strlit("CashEquivalents");
    reveal_strlit("CashFinancial");
}

proof fn lemma_cashflow_keys_bare()
    ensures
        forall|i: int| 0 <= i < cashflow_keys().len() ==> bare_metric(#[trigger] cashflow_keys()[i]),
{
    reveal_strlit("ForeignSales");
    reveal_strlit("DomesticSales");
    reveal_strlit("FreeCashFlow");
    reveal_strlit("RepurchaseOfCapitalStock");
    reveal_strlit("RepaymentOfDebt");
    reveal_strlit("IssuanceOfDebt");
    reveal_strlit("IssuanceOfCapitalStock");
    reveal_strlit("CapitalExpenditure");
    reveal_strlit("InterestPaidSupplementalData");
    reveal_strlit("IncomeTaxPaidSupplementalData");
    reveal_strlit("EndCashPosition");
    reveal_strlit("BeginningCashPosition");
    reveal_strlit("EffectOfExchangeRateChanges");
    reveal_strlit("ChangesInCash");
    reveal_strlit("CashFlowFromDiscontinuedOperation");
    reveal_strlit("FinancingCashFlow");
    reveal_strlit("CashFlowFromContinuingFinancingActivities");
    reveal_strlit("NetOtherFinancingCharges");
    reveal_strlit("InterestPaidCFF");
    reveal_strlit("ProceedsFromStockOptionExercised");
    reveal_strlit("CashDividendsPaid");
    reveal_strlit("PreferredStockDividendPaid");
    reveal_strlit("CommonStockDividendPaid");
    reveal_strlit("NetPreferredStockIssuance");
    reveal_strlit("PreferredStockPayments");
    reveal_strlit("PreferredStockIssuance");
    reveal_strlit("NetCommonStockIssuance");
    reveal_strlit("CommonStockPayments");
    reveal_strlit("CommonStockIssuance");
    reveal_strlit("NetIssuancePaymentsOfDebt");
    reveal_strlit("NetShortTermDebtIssuance");
    reveal_strlit("ShortTermDebtPayments");
    reveal_strlit("ShortTermDebtIssuance");
    reveal_strlit("NetLongTermDebtIssuance");
    reveal_strlit("LongTermDebtPayments");
    reveal_strlit("LongTermDebtIssuance");
    reveal_strlit("InvestingCashFlow");
    reveal_strlit("CashFlowFromContinuingInvestingActivities");
    reveal_strlit("NetOtherInvestingChanges");
    reveal_strlit("NetInvestmentPurchaseAndSale");
    reveal_strlit("SaleOfInvestment");
    reveal_strlit("PurchaseOfInvestment");
    reveal_strlit("NetBusinessPurchaseAndSale");
    reveal_strlit("SaleOfBusiness");
    reveal_strlit("PurchaseOfBusiness");
    reveal_strlit("NetIntangiblesPurchaseAndSale");
    reveal_strlit("SaleOfIntangibles");
    reveal_strlit("PurchaseOfIntangibles");
    reveal_strlit("NetPPEPurchaseAndSale");
    reveal_strlit("SaleOfPPE");
    reveal_strlit("PurchaseOfPPE");
    reveal_strlit("CapitalExpenditureReported");
    reveal_strlit("OperatingCashFlow");
    reveal_strlit("CashFlowFromContinuingOperatingActivities");
    reveal_strlit("TaxesRefundPaid");
    reveal_strlit("InterestPaidCFO");
    reveal_strlit("DividendPaidCFO");
    reveal_strlit("ChangeInWorkingCapital");
    reveal_strlit("ChangeInOtherWorkingCapital");
    reveal_strlit("ChangeInOtherCurrentLiabilities");
    reveal_strlit("ChangeInOtherCurrentAssets");
    reveal_strlit("ChangeInPayablesAndAccruedExpense");
    reveal_strlit("ChangeInAccruedExpense");
    reveal_strlit("ChangeInPayable");
    reveal_strlit("ChangeInAccountPayable");
    reveal_strlit("ChangeInTaxPayable");
    reveal_strlit("ChangeInIncomeTaxPayable");
    reveal_strlit("ChangeInPrepaidAssets");
    reveal_strlit("ChangeInInventory");
    reveal_strlit("ChangeInReceivables");
    reveal_strlit("ChangesInAccountReceivables");
    reveal_strlit("OtherNonCashItems");
    reveal_strlit("StockBasedCompensation");
    reveal_strlit("UnrealizedGainLossOnInvestmentSecurities");
    reveal_strlit("ProvisionandWriteOffofAssets");
    reveal_strlit("AssetImpairmentCharge");
    reveal_strlit("DeferredTax");
    reveal_strlit("DeferredIncomeTax");
    reveal_strlit("DepreciationAmortizationDepletion");
    reveal_strlit("DepreciationAndAmortization");
    reveal_strlit("AmortizationCashFlow");
    reveal_strlit("AmortizationOfIntangibles");
    reveal_strlit("Depreciation");
    reveal_strlit("OperatingGainsLosses");
    reveal_strlit("NetForeignCurrencyExchangeGainLoss");
    reveal_strlit("GainLossOnSaleOfPPE");
    reveal_strlit("GainLossOnSaleOfBusiness");
    reveal_strlit("NetIncomeFromContinuingOperations");
}

/// The metric names of every statement form a non-empty list of bare names:
/// none carries an `annual` or `quarterly` period prefix (the request adds
/// it), and the income statement asks for `TotalRevenue`.
pub proof fn statement_keys_are_bare_names(k: FundamentalsKind)
    ensures
        kind_keys(k).len() > 0,
        forall|i: int|
            0 <= i < kind_keys(k).len() ==> {
                &&& bare_metric(#[trigger] kind_keys(k)[i])
                &&& !"annual"@.is_prefix_of(kind_keys(k)[i])
                &&& !"quarterly"@.is_prefix_of(kind_keys(k)[i])
            },
        kind_keys(FundamentalsKind::IncomeStatement).contains("TotalRevenue"@),
{
    lemma_income_keys_bare();
    lemma_balance_keys_bare();
    lemma_cashflow_keys_bare();
    reveal_strlit("annual");
    reveal_strlit("quarterly");
    assert forall|i: int| 0 <= i < kind_keys(k).len() implies {
        &&& !"annual"@.is_prefix_of(kind_keys(k)[i])
        &&& !"quarterly"@.is_prefix_of(kind_keys(k)[i])
    } by {
        let name = kind_keys(k)[i];
        assert(bare_metric(name));
        if "annual"@.is_prefix_of(name) {
            assert(name.subrange(0, 6)[0] == name[0]);
        }
        if "quarterly"@.is_prefix_of(name) {
            assert(name.subrange(0, 9)[0] == name[0]);
        }
    }
    assert(income_keys()[74] == "TotalRevenue"@);
}

/// The metrics each statement asks for, by name and in request order
/// (79 income-statement, 120 balance-sheet and 88 cash-flow metrics, the
/// balance sheet among them `TotalDebt`, the income statement
/// `TotalRevenue`): no metric is added, dropped or reordered.
pub proof fn statement_metric_names()
    ensures
        kind_keys(FundamentalsKind::IncomeStatement) =~= seq![
                "TaxEffectOfUnusualItems"@,
                "TaxRateForCalcs"@,
                "NormalizedEBITDA"@,
                "NormalizedDilutedEPS"@,
                "NormalizedBasicEPS"@,
                "TotalUnusualItems"@,
                "TotalUnusualItemsExcludingGoodwill"@,
                "NetIncomeFromContinuingOperationNetMinorityInterest"@,
                "ReconciledDepreciation"@,
                "ReconciledCostOfRevenue"@,
                "EBITDA"@,
                "EBIT"@,
                "NetInterestIncome"@,
                "InterestExpense"@,
                "InterestIncome"@,
                "ContinuingAndDiscontinuedDilutedEPS"@,
                "ContinuingAndDiscontinuedBasicEPS"@,
                "NormalizedIncome"@,
                "NetIncomeFromContinuingAndDiscontinuedOperation"@,
                "TotalExpenses"@,
                "RentExpenseSupplemental"@,
                "ReportedNormalizedDilutedEPS"@,
                "ReportedNormalizedBasicEPS"@,
                "TotalOperatingIncomeAsReported"@,
                "DividendPerShare"@,
                "DilutedAverageShares"@,
                "BasicAverageShares"@,
                "DilutedEPS"@,
                "BasicEPS"@,
                "DilutedNIAvailtoComStockholders"@,
                "AverageDilutionEarnings"@,
                "NetIncomeCommonStockholders"@,
                "PreferredStockDividends"@,
                "NetIncome"@,
                "MinorityInterests"@,
                "NetIncomeIncludingNoncontrollingInterests"@,
                "NetIncomeContinuousOperations"@,
                "TaxProvision"@,
                "PretaxIncome"@,
                "OtherIncomeExpense"@,
                "OtherNonOperatingIncomeExpenses"@,
                "SpecialIncomeCharges"@,
                "GainOnSaleOfPPE"@,
                "GainOnSaleOfBusiness"@,
                "OtherSpecialCharges"@,
                "WriteOff"@,
                "ImpairmentOfCapitalAssets"@,
                "RestructuringAndMergernAcquisition"@,
                "EarningsFromEquityInterest"@,
                "GainOnSaleOfSecurity"@,
                "NetNonOperatingInterestIncomeExpense"@,
                "TotalOtherFinanceCost"@,
                "InterestExpenseNonOperating"@,
                "InterestIncomeNonOperating"@,
                "OperatingIncome"@,
                "OperatingExpense"@,
                "OtherOperatingExpenses"@,
                "OtherTaxes"@,
                "ProvisionForDoubtfulAccounts"@,
                "DepreciationAmortizationDepletionIncomeStatement"@,
                "DepreciationAndAmortizationInIncomeStatement"@,
                "Amortization"@,
                "AmortizationOfIntangiblesIncomeStatement"@,
                "DepreciationIncomeStatement"@,
                "ResearchAndDevelopment"@,
                "SellingGeneralAndAdministration"@,
                "SellingAndMarketingExpense"@,
                "GeneralAndAdministrativeExpense"@,
                "OtherGandA"@,
                "InsuranceAndClaims"@,
                "RentAndLandingFees"@,
                "SalariesAndWages"@,
                "GrossProfit"@,
                "CostOfRevenue"@,
                "TotalRevenue"@,
                "ExciseTaxes"@,
                "OperatingRevenue"@,
                "OccupancyAndEquipment"@,
                "OtherNonInterestExpense"@,
            ],
        kind_keys(FundamentalsKind::BalanceSheet) =~= seq![
                "TreasurySharesNumber"@,
                "PreferredSharesNumber"@,
                "OrdinarySharesNumber"@,
                "ShareIssued"@,
                "NetDebt"@,
                "TotalDebt"@,
                "TangibleBookValue"@,
                "InvestedCapital"@,
                "WorkingCapital"@,
                "NetTangibleAssets"@,
                "CapitalLeaseObligations"@,
                "CommonStockEquity"@,
                "PreferredStockEquity"@,
                "TotalCapitalization"@,
                "TotalEquityGrossMinorityInterest"@,
                "MinorityInterest"@,
                "StockholdersEquity"@,
                "OtherEquityInterest"@,
                "GainsLossesNotAffectingRetainedEarnings"@,
                "OtherEquityAdjustments"@,
                "ForeignCurrencyTranslationAdjustments"@,
                "MinimumPensionLiabilities"@,
                "UnrealizedGainLoss"@,
                "TreasuryStock"@,
                "RetainedEarnings"@,
                "AdditionalPaidInCapital"@,
                "CapitalStock"@,
                "CommonStock"@,
                "PreferredStock"@,
                "TotalLiabilitiesNetMinorityInterest"@,
                "TotalNonCurrentLiabilitiesNetMinorityInterest"@,
                "OtherNonCurrentLiabilities"@,
                "LiabilitiesHeldforSaleNonCurrent"@,
                "EmployeeBenefits"@,
                "NonCurrentPensionAndOtherPostretirementBenefitPlans"@,
                "NonCurrentAccruedExpenses"@,
                "TradeandOtherPayablesNonCurrent"@,
                "NonCurrentDeferredLiabilities"@,
                "NonCurrentDeferredRevenue"@,
                "NonCurrentDeferredTaxesLiabilities"@,
                "LongTermDebtAndCapitalLeaseObligation"@,
                "LongTermCapitalLeaseObligation"@,
                "LongTermDebt"@,
                "LongTermProvisions"@,
                "CurrentLiabilities"@,
                "OtherCurrentLiabilities"@,
                "CurrentDeferredLiabilities"@,
                "CurrentDeferredRevenue"@,
                "CurrentDeferredTaxesLiabilities"@,
                "CurrentDebtAndCapitalLeaseObligation"@,
                "CurrentCapitalLeaseObligation"@,
                "CurrentDebt"@,
                "OtherCurrentBorrowings"@,
                "LineOfCredit"@,
                "CommercialPaper"@,
                "CurrentNotesPayable"@,
                "PayablesAndAccruedExpenses"@,
                "CurrentAccruedExpenses"@,
                "InterestPayable"@,
                "Payables"@,
                "DividendsPayable"@,
                "TotalTaxPayable"@,
                "IncomeTaxPayable"@,
                "AccountsPayable"@,
                "TotalAssets"@,
                "TotalNonCurrentAssets"@,
                "OtherNonCurrentAssets"@,
                "DefinedPensionBenefit"@,
                "NonCurrentPrepaidAssets"@,
                "NonCurrentDeferredAssets"@,
                "NonCurrentDeferredTaxesAssets"@,
                "NonCurrentNoteReceivables"@,
                "NonCurrentAccountsReceivable"@,
                "FinancialAssets"@,
                "InvestmentsAndAdvances"@,
                "OtherInvestments"@,
                "InvestmentinFinancialAssets"@,
                "HeldToMaturitySecurities"@,
                "AvailableForSaleSecurities"@,
                "TradingSecurities"@,
                "LongTermEquityInvestment"@,
                "InvestmentProperties"@,
                "GoodwillAndOtherIntangibleAssets"@,
                "OtherIntangibleAssets"@,
                "Goodwill"@,
                "NetPPE"@,
                "AccumulatedDepreciation"@,
                "GrossPPE"@,
                "Leases"@,
                "ConstructionInProgress"@,
                "OtherProperties"@,
                "MachineryFurnitureEquipment"@,
                "BuildingsAndImprovements"@,
                "LandAndImprovements"@,
                "Properties"@,
                "CurrentAssets"@,
                "OtherCurrentAssets"@,
                "HedgingAssetsCurrent"@,
                "AssetsHeldForSaleCurrent"@,
                "CurrentDeferredAssets"@,
                "CurrentDeferredTaxesAssets"@,
                "RestrictedCash"@,
                "PrepaidAssets"@,
                "Inventory"@,
                "FinishedGoods"@,
                "WorkInProcess"@,
                "RawMaterials"@,
                "Receivables"@,
                "OtherReceivables"@,
                "TaxesReceivable"@,
                "AccruedInterestReceivable"@,
                "NotesReceivable"@,
                "LoansReceivable"@,
                "AccountsReceivable"@,
                "GrossAccountsReceivable"@,
                "CashCashEquivalentsAndShortTermInvestments"@,
                "OtherShortTermInvestments"@,
                "CashAndCashEquivalents"@,
                "CashEquivalents"@,
                "CashFinancial"@,
            ],
        kind_keys(FundamentalsKind::CashFlow) =~= seq![
                "ForeignSales"@,
                "DomesticSales"@,
                "FreeCashFlow"@,
                "RepurchaseOfCapitalStock"@,
                "RepaymentOfDebt"@,
                "IssuanceOfDebt"@,
                "IssuanceOfCapitalStock"@,
                "CapitalExpenditure"@,
                "InterestPaidSupplementalData"@,
                "IncomeTaxPaidSupplementalData"@,
                "EndCashPosition"@,
                "BeginningCashPosition"@,
                "EffectOfExchangeRateChanges"@,
                "ChangesInCash"@,
                "CashFlowFromDiscontinuedOperation"@,
                "FinancingCashFlow"@,
                "CashFlowFromContinuingFinancingActivities"@,
                "NetOtherFinancingCharges"@,
                "InterestPaidCFF"@,
                "ProceedsFromStockOptionExercised"@,
                "CashDividendsPaid"@,
                "PreferredStockDividendPaid"@,
                "CommonStockDividendPaid"@,
                "NetPreferredStockIssuance"@,
                "PreferredStockPayments"@,
                "PreferredStockIssuance"@,
                "NetCommonStockIssuance"@,
                "CommonStockPayments"@,
                "CommonStockIssuance"@,
                "NetIssuancePaymentsOfDebt"@,
                "NetShortTermDebtIssuance"@,
                "ShortTermDebtPayments"@,
                "ShortTermDebtIssuance"@,
                "NetLongTermDebtIssuance"@,
                "LongTermDebtPayments"@,
                "LongTermDebtIssuance"@,
                "InvestingCashFlow"@,
                "CashFlowFromContinuingInvestingActivities"@,
                "NetOtherInvestingChanges"@,
                "NetInvestmentPurchaseAndSale"@,
                "SaleOfInvestment"@,
                "PurchaseOfInvestment"@,
                "NetBusinessPurchaseAndSale"@,
                "SaleOfBusiness"@,
                "PurchaseOfBusiness"@,
                "NetIntangiblesPurchaseAndSale"@,
                "SaleOfIntangibles"@,
                "PurchaseOfIntangibles"@,
                "NetPPEPurchaseAndSale"@,
                "SaleOfPPE"@,
                "PurchaseOfPPE"@,
                "CapitalExpenditureReported"@,
                "OperatingCashFlow"@,
                "CashFlowFromContinuingOperatingActivities"@,
                "TaxesRefundPaid"@,
                "InterestPaidCFO"@,
                "DividendPaidCFO"@,
                "ChangeInWorkingCapital"@,
                "ChangeInOtherWorkingCapital"@,
                "ChangeInOtherCurrentLiabilities"@,
                "ChangeInOtherCurrentAssets"@,
                "ChangeInPayablesAndAccruedExpense"@,
                "ChangeInAccruedExpense"@,
                "ChangeInPayable"@,
                "ChangeInAccountPayable"@,
                "ChangeInTaxPayable"@,
                "ChangeInIncomeTaxPayable"@,
                "ChangeInPrepaidAssets"@,
                "ChangeInInventory"@,
                "ChangeInReceivables"@,
                "ChangesInAccountReceivables"@,
                "OtherNonCashItems"@,
                "StockBasedCompensation"@,
                "UnrealizedGainLossOnInvestmentSecurities"@,
                "ProvisionandWriteOffofAssets"@,
                "AssetImpairmentCharge"@,
                "DeferredTax"@,
                "DeferredIncomeTax"@,
                "DepreciationAmortizationDepletion"@,
                "DepreciationAndAmortization"@,
                "AmortizationCashFlow"@,
                "AmortizationOfIntangibles"@,
                "Depreciation"@,
                "OperatingGainsLosses"@,
                "NetForeignCurrencyExchangeGainLoss"@,
                "GainLossOnSaleOfPPE"@,
                "GainLossOnSaleOfBusiness"@,
                "NetIncomeFromContinuingOperations"@,
            ],
{
}

impl FundamentalsKind {
    /// Metric names sent to the timeseries endpoint, **without** the
    /// `annual` / `quarterly` prefix.
    pub fn keys(self) -> (r: &'static [&'static str])
        ensures
            strs_view(r@) == kind_keys(self),
    {
        let r: &'static [&'static str] = match self {
            FundamentalsKind::IncomeStatement => &[
                "TaxEffectOfUnusualItems",
                "TaxRateForCalcs",
                "NormalizedEBITDA",
                "NormalizedDilutedEPS",
                "NormalizedBasicEPS",
                "TotalUnusualItems",
                "TotalUnusualItemsExcludingGoodwill",
                "NetIncomeFromContinuingOperationNetMinorityInterest",
                "ReconciledDepreciation",
                "ReconciledCostOfRevenue",
                "EBITDA",
                "EBIT",
                "NetInterestIncome",
                "InterestExpense",
                "InterestIncome",
                "ContinuingAndDiscontinuedDilutedEPS",
                "ContinuingAndDiscontinuedBasicEPS",
                "NormalizedIncome",
                "NetIncomeFromContinuingAndDiscontinuedOperation",
                "TotalExpenses",
                "RentExpenseSupplemental",
                "ReportedNormalizedDilutedEPS",
                "ReportedNormalizedBasicEPS",
                "TotalOperatingIncomeAsReported",
                "DividendPerShare",
                "DilutedAverageShares",
                "BasicAverageShares",
                "DilutedEPS",
                "BasicEPS",
                "DilutedNIAvailtoComStockholders",
                "AverageDilutionEarnings",
                "NetIncomeCommonStockholders",
                "PreferredStockDividends",
                "NetIncome",
                "MinorityInterests",
                "NetIncomeIncludingNoncontrollingInterests",
                "NetIncomeContinuousOperations",
                "TaxProvision",
                "PretaxIncome",
                "OtherIncomeExpense",
                "OtherNonOperatingIncomeExpenses",
                "SpecialIncomeCharges",
                "GainOnSaleOfPPE",
                "GainOnSaleOfBusiness",
                "OtherSpecialCharges",
                "WriteOff",
                "ImpairmentOfCapitalAssets",
                "RestructuringAndMergernAcquisition",
                "EarningsFromEquityInterest",
                "GainOnSaleOfSecurity",
                "NetNonOperatingInterestIncomeExpense",
                "TotalOtherFinanceCost",
                "InterestExpenseNonOperating",
                "InterestIncomeNonOperating",
                "OperatingIncome",
                "OperatingExpense",
                "OtherOperatingExpenses",
                "OtherTaxes",
                "ProvisionForDoubtfulAccounts",
                "DepreciationAmortizationDepletionIncomeStatement",
                "DepreciationAndAmortizationInIncomeStatement",
                "Amortization",
                "AmortizationOfIntangiblesIncomeStatement",
                "DepreciationIncomeStatement",
                "ResearchAndDevelopment",
                "SellingGeneralAndAdministration",
                "SellingAndMarketingExpense",
                "GeneralAndAdministrativeExpense",
                "OtherGandA",
                "InsuranceAndClaims",
                "RentAndLandingFees",
                "SalariesAndWages",
                "GrossProfit",
                "CostOfRevenue",
                "TotalRevenue",
                "ExciseTaxes",
                "OperatingRevenue",
                "OccupancyAndEquipment",
                "OtherNonInterestExpense",
            ],
            FundamentalsKind::BalanceSheet => &[
                "TreasurySharesNumber",
                "PreferredSharesNumber",
                "OrdinarySharesNumber",
                "ShareIssued",
                "NetDebt",
                "TotalDebt",
                "TangibleBookValue",
                "InvestedCapital",
                "WorkingCapital",
                "NetTangibleAssets",
                "CapitalLeaseObligations",
                "CommonStockEquity",
                "PreferredStockEquity",
                "TotalCapitalization",
                "TotalEquityGrossMinorityInterest",
                "MinorityInterest",
                "StockholdersEquity",
                "OtherEquityInterest",
                "GainsLossesNotAffectingRetainedEarnings",
                "OtherEquityAdjustments",
                "ForeignCurrencyTranslationAdjustments",
                "MinimumPensionLiabilities",
                "UnrealizedGainLoss",
                "TreasuryStock",
                "RetainedEarnings",
                "AdditionalPaidInCapital",
                "CapitalStock",
                "CommonStock",
                "PreferredStock",
                "TotalLiabilitiesNetMinorityInterest",
                "TotalNonCurrentLiabilitiesNetMinorityInterest",
                "OtherNonCurrentLiabilities",
                "LiabilitiesHeldforSaleNonCurrent",
                "EmployeeBenefits",
                "NonCurrentPensionAndOtherPostretirementBenefitPlans",
                "NonCurrentAccruedExpenses",
                "TradeandOtherPayablesNonCurrent",
                "NonCurrentDeferredLiabilities",
                "NonCurrentDeferredRevenue",
                "NonCurrentDeferredTaxesLiabilities",
                "LongTermDebtAndCapitalLeaseObligation",
                "LongTermCapitalLeaseObligation",
                "LongTermDebt",
                "LongTermProvisions",
                "CurrentLiabilities",
                "OtherCurrentLiabilities",
                "CurrentDeferredLiabilities",
                "CurrentDeferredRevenue",
                "CurrentDeferredTaxesLiabilities",
                "CurrentDebtAndCapitalLeaseObligation",
                "CurrentCapitalLeaseObligation",
                "CurrentDebt",
                "OtherCurrentBorrowings",
                "LineOfCredit",
                "CommercialPaper",
                "CurrentNotesPayable",
                "PayablesAndAccruedExpenses",
                "CurrentAccruedExpenses",
                "InterestPayable",
                "Payables",
                "DividendsPayable",
                "TotalTaxPayable",
                "IncomeTaxPayable",
                "AccountsPayable",
                "TotalAssets",
                "TotalNonCurrentAssets",
                "OtherNonCurrentAssets",
                "DefinedPensionBenefit",
                "NonCurrentPrepaidAssets",
                "NonCurrentDeferredAssets",
                "NonCurrentDeferredTaxesAssets",
                "NonCurrentNoteReceivables",
                "NonCurrentAccountsReceivable",
                "FinancialAssets",
                "InvestmentsAndAdvances",
                "OtherInvestments",
                "InvestmentinFinancialAssets",
                "HeldToMaturitySecurities",
                "AvailableForSaleSecurities",
                "TradingSecurities",
                "LongTermEquityInvestment",
                "InvestmentProperties",
                "GoodwillAndOtherIntangibleAssets",
                "OtherIntangibleAssets",
                "Goodwill",
                "NetPPE",
                "AccumulatedDepreciation",
                "GrossPPE",
                "Leases",
                "ConstructionInProgress",
                "OtherProperties",
                "MachineryFurnitureEquipment",
                "BuildingsAndImprovements",
                "LandAndImprovements",
                "Properties",
                "CurrentAssets",
                "OtherCurrentAssets",
                "HedgingAssetsCurrent",
                "AssetsHeldForSaleCurrent",
                "CurrentDeferredAssets",
                "CurrentDeferredTaxesAssets",
                "RestrictedCash",
                "PrepaidAssets",
                "Inventory",
                "FinishedGoods",
                "WorkInProcess",
                "RawMaterials",
                "Receivables",
                "OtherReceivables",
                "TaxesReceivable",
                "AccruedInterestReceivable",
                "NotesReceivable",
                "LoansReceivable",
                "AccountsReceivable",
                "GrossAccountsReceivable",
                "CashCashEquivalentsAndShortTermInvestments",
                "OtherShortTermInvestments",
                "CashAndCashEquivalents",
                "CashEquivalents",
                "CashFinancial",
            ],
            FundamentalsKind::CashFlow => &[
                "ForeignSales",
                "DomesticSales",
                "FreeCashFlow",
                "RepurchaseOfCapitalStock",
                "RepaymentOfDebt",
                "IssuanceOfDebt",
                "IssuanceOfCapitalStock",
                "CapitalExpenditure",
                "InterestPaidSupplementalData",
                "IncomeTaxPaidSupplementalData",
                "EndCashPosition",
                "BeginningCashPosition",
                "EffectOfExchangeRateChanges",
                "ChangesInCash",
                "CashFlowFromDiscontinuedOperation",
                "FinancingCashFlow",
                "CashFlowFromContinuingFinancingActivities",
                "NetOtherFinancingCharges",
                "InterestPaidCFF",
                "ProceedsFromStockOptionExercised",
                "CashDividendsPaid",
                "PreferredStockDividendPaid",
                "CommonStockDividendPaid",
                "NetPreferredStockIssuance",
                "PreferredStockPayments",
                "PreferredStockIssuance",
                "NetCommonStockIssuance",
                "CommonStockPayments",
                "CommonStockIssuance",
                "NetIssuancePaymentsOfDebt",
                "NetShortTermDebtIssuance",
                "ShortTermDebtPayments",
                "ShortTermDebtIssuance",
                "NetLongTermDebtIssuance",
                "LongTermDebtPayments",
                "LongTermDebtIssuance",
                "InvestingCashFlow",
                "CashFlowFromContinuingInvestingActivities",
                "NetOtherInvestingChanges",
                "NetInvestmentPurchaseAndSale",
                "SaleOfInvestment",
                "PurchaseOfInvestment",
                "NetBusinessPurchaseAndSale",
                "SaleOfBusiness",
                "PurchaseOfBusiness",
                "NetIntangiblesPurchaseAndSale",
                "SaleOfIntangibles",
                "PurchaseOfIntangibles",
                "NetPPEPurchaseAndSale",
                "SaleOfPPE",
                "PurchaseOfPPE",
                "CapitalExpenditureReported",
                "OperatingCashFlow",
                "CashFlowFromContinuingOperatingActivities",
                "TaxesRefundPaid",
                "InterestPaidCFO",
                "DividendPaidCFO",
                "ChangeInWorkingCapital",
                "ChangeInOtherWorkingCapital",
                "ChangeInOtherCurrentLiabilities",
                "ChangeInOtherCurrentAssets",
                "ChangeInPayablesAndAccruedExpense",
                "ChangeInAccruedExpense",
                "ChangeInPayable",
                "ChangeInAccountPayable",
                "ChangeInTaxPayable",
                "ChangeInIncomeTaxPayable",
                "ChangeInPrepaidAssets",
                "ChangeInInventory",
                "ChangeInReceivables",
                "ChangesInAccountReceivables",
                "OtherNonCashItems",
                "StockBasedCompensation",
                "UnrealizedGainLossOnInvestmentSecurities",
                "ProvisionandWriteOffofAssets",
                "AssetImpairmentCharge",
                "DeferredTax",
                "DeferredIncomeTax",
                "DepreciationAmortizationDepletion",
                "DepreciationAndAmortization",
                "AmortizationCashFlow",
                "AmortizationOfIntangibles",
                "Depreciation",
                "OperatingGainsLosses",
                "NetForeignCurrencyExchangeGainLoss",
                "GainLossOnSaleOfPPE",
                "GainLossOnSaleOfBusiness",
                "NetIncomeFromContinuingOperations",
            ],
        };
        assert(strs_view(r@) =~= kind_keys(self));
        r
    }
}

/// `key` without a leading `prefix`, or `key` itself when it does not start
/// with `prefix` (`str::strip_prefix`).
pub open spec fn spec_strip_prefix(key: Seq<char>, prefix: Seq<char>) -> Seq<char> {
    if prefix.len() <= key.len() && key.take(prefix.len() as int) == prefix {
        key.skip(prefix.len() as int)
    } else {
        key
    }
}

/// A metric requested under a period prefix is read back under its own
/// name: stripping the prefix from the prefixed name gives the metric.
pub proof fn stripping_prefix_recovers_metric(prefix: Seq<char>, metric: Seq<char>)
    ensures
        spec_strip_prefix(prefix + metric, prefix) == metric,
{
    assert((prefix + metric).take(prefix.len() as int) =~= prefix);
    assert((prefix + metric).skip(prefix.len() as int) =~= metric);
}

/// The metric a reply key names: the key without its `annual` / `quarterly`
/// prefix.
pub fn strip_prefix<'a>(key: &'a str, prefix: &str) -> (r: &'a str)
    ensures
        r@ == spec_strip_prefix(key@, prefix@),
{
    let k = chars_of(key);
    let p = chars_of(prefix);
    if p.len() > k.len() {
        return key;
    }
    let mut i: usize = 0;
    while i < p.len()
        invariant
            p@ == prefix@,
            k@ == key@,
            p@.len() <= k@.len(),
            i <= p@.len(),
            forall|j: int| 0 <= j < i ==> k@[j] == p@[j],
        decreases p@.len() - i,
    {
        if k[i] != p[i] {
            assert(key@.take(prefix@.len() as int)[i as int] != prefix@[i as int]);
            return key;
        }
        i += 1;
    }
    assert(key@.take(prefix@.len() as int) =~= prefix@);
    key.substring_char(p.len(), k.len())
}

/// The metric a member of a timeseries result holds: none for the `meta`
/// and `timestamp` members, otherwise the member's key without the period
/// prefix.
pub fn metric_of_key<'a>(key: &'a str, quarterly: bool) -> (r: Option<&'a str>)
    ensures
        r is None <==> (key@ == "meta"@ || key@ == "timestamp"@),
        r matches Some(m) ==> m@ == spec_strip_prefix(key@, period_prefix(quarterly)),
{
    let k = chars_of(key);
    if chars_eq(&k, &chars_of("meta")) || chars_eq(&k, &chars_of("timestamp")) {
        return None;
    }
    let prefix = if quarterly {
        "quarterly"
    } else {
        "annual"
    };
    Some(strip_prefix(key, prefix))
}

pub open spec fn strictly_ascending(s: Seq<i64>) -> bool {
    forall|i: int, j: int| 0 <= i < j < s.len() ==> s[i] < s[j]
}

/// The distinct values of `values` (dates as day numbers), oldest first.
pub fn distinct_ascending(values: Vec<i64>) -> (r: Vec<i64>)
    ensures
        strictly_ascending(r@),
        forall|x: i64| r@.contains(x) <==> values@.contains(x),
{
    let mut out: Vec<i64> = Vec::new();
    let mut i: usize = 0;
    while i < values.len()
        invariant
            i <= values@.len(),
            strictly_ascending(out@),
            forall|x: i64| out@.contains(x) <==> values@.take(i as int).contains(x),
        decreases values@.len() - i,
    {
        let x = values[i];
        let mut p: usize = 0;
        while p < out.len() && out[p] < x
            invariant
                p <= out@.len(),
                forall|k: int| 0 <= k < p ==> out@[k] < x,
            decreases out@.len() - p,
        {
            p += 1;
        }
        let ghost before = out@;
        let ghost seen = values@.take(i as int);
        assert(values@.take(i + 1) =~= seen.push(x));
        if p < out.len() && out[p] == x {
            assert forall|y: i64| out@.contains(y) <==> seen.push(x).contains(y) by {
                if y == x {
                    assert(out@[p as int] == x);
                    assert(seen.push(x)[seen.len() as int] == x);
                }
                if seen.push(x).contains(y) && y != x {
                    let k = choose|k: int| 0 <= k < seen.push(x).len() && seen.push(x)[k] == y;
                    assert(seen[k] == y);
                }
            }
        } else {
            out.insert(p, x);
            assert(out@ == before.insert(p as int, x));
            assert forall|a: int, b: int| 0 <= a < b < out@.len() implies out@[a] < out@[b] by {
                if b < p {
                    assert(out@[a] == before[a] && out@[b] == before[b]);
                } else if b == p {
                    assert(out@[a] == before[a]);
                } else if a < p {
                    assert(out@[a] == before[a] && out@[b] == before[b - 1]);
                } else if a == p {
                    assert(out@[b] == before[b - 1]);
                    assert(before[p as int] > x);
                    assert(before[p as int] <= before[b - 1]);
                } else {
                    assert(out@[a] == before[a - 1] && out@[b] == before[b - 1]);
                }
            }
            assert forall|y: i64| out@.contains(y) <==> seen.push(x).contains(y) by {
                if out@.contains(y) {
                    let k = choose|k: int| 0 <= k < out@.len() && out@[k] == y;
                    if k < p {
                        assert(before[k] == y);
                    } else if k > p {
                        assert(before[k - 1] == y);
                    }
                    if y != x {
                        assert(before.contains(y));
                        assert(seen.contains(y));
                        let m = choose|m: int| 0 <= m < seen.len() && seen[m] == y;
                        assert(seen.push(x)[m] == y);
                    } else {
                        assert(seen.push(x)[seen.len() as int] == x);
                    }
                }
                if seen.push(x).contains(y) {
                    let k = choose|k: int| 0 <= k < seen.push(x).len() && seen.push(x)[k] == y;
                    if k < seen.len() {
                        assert(seen[k] == y);
                        assert(seen.contains(y));
                        assert(before.contains(y));
                        let m = choose|m: int| 0 <= m < before.len() && before[m] == y;
                        if m < p {
                            assert(out@[m] == y);
                        } else {
                            assert(out@[m + 1] == y);
                        }
                    } else {
                        assert(out@[p as int] == x);
                    }
                }
            }
        }
        i += 1;
    }
    assert(values@.take(values@.len() as int) =~= values@);
    out
}

} // verus!
