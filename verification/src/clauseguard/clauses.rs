//! FAR/DFARS clause database: risk levels, descriptions and recommendations
//! for common clauses, looked up by clause number.
use vstd::prelude::*;
use crate::text::{chars_of, vec_eq};

verus! {

/// Risk of a clause or a contract, from favourable to dangerous.
#[derive(Debug, Clone, Copy, PartialEq, Eq, Structural)]
pub enum RiskLevel {
    Green,
    Yellow,
    Red,
}

pub open spec fn risk_name(r: RiskLevel) -> Seq<char> {
    match r {
        RiskLevel::Green => "GREEN"@,
        RiskLevel::Yellow => "YELLOW"@,
        RiskLevel::Red => "RED"@,
    }
}

/// Numeric weight for scoring: green 1, yellow 3, red 10.
pub open spec fn risk_weight(r: RiskLevel) -> nat {
    match r {
        RiskLevel::Green => 1,
        RiskLevel::Yellow => 3,
        RiskLevel::Red => 10,
    }
}

impl RiskLevel {
    pub fn as_str(&self) -> (r: &'static str)
        ensures
            r@ == risk_name(*self),
    {
        match self {
            RiskLevel::Green => "GREEN",
            RiskLevel::Yellow => "YELLOW",
            RiskLevel::Red => "RED",
        }
    }

    /// Numeric weight for scoring: GREEN=1, YELLOW=3, RED=10.
    pub fn weight(&self) -> (r: u32)
        ensures
            r == risk_weight(*self),
    {
        match self {
            RiskLevel::Green => 1,
            RiskLevel::Yellow => 3,
            RiskLevel::Red => 10,
        }
    }
}

/// Weights grow strictly with risk.
pub proof fn lemma_weight_order()
    ensures
        risk_weight(RiskLevel::Green) < risk_weight(RiskLevel::Yellow) < risk_weight(RiskLevel::Red),
{
}

/// One clause of the database.
#[derive(Debug, Clone)]
pub struct ClauseInfo {
    pub number: String,
    pub title: String,
    pub risk: RiskLevel,
    pub description: String,
    pub recommendation: String,
}

/// A clause as number, title, risk, description and recommendation.
pub type ClauseView = (Seq<char>, Seq<char>, RiskLevel, Seq<char>, Seq<char>);

impl View for ClauseInfo {
    type V = ClauseView;

    open spec fn view(&self) -> ClauseView {
        (self.number@, self.title@, self.risk, self.description@, self.recommendation@)
    }
}

impl ClauseInfo {
    /// Weight of this clause's risk level.
    pub fn weight_of(&self) -> (r: u32)
        ensures
            r == risk_weight(self.risk),
    {
        self.risk.weight()
    }

    /// A copy of this clause.
    pub fn duplicate(&self) -> (r: ClauseInfo)
        ensures
            r@ == self@,
    {
        ClauseInfo {
            number: self.number.clone(),
            title: self.title.clone(),
            risk: self.risk,
            description: self.description.clone(),
            recommendation: self.recommendation.clone(),
        }
    }
}

/// Position of the first clause numbered `n`, or -1.
pub open spec fn find_clause(s: Seq<ClauseView>, n: Seq<char>) -> int
    decreases s.len(),
{
    if s.len() == 0 {
        -1
    } else {
        let f = find_clause(s.drop_last(), n);
        if f >= 0 {
            f
        } else if s.last().0 == n {
            s.len() - 1
        } else {
            -1
        }
    }
}

pub proof fn lemma_find_clause(s: Seq<ClauseView>, n: Seq<char>)
    ensures
        -1 <= find_clause(s, n) < s.len(),
        find_clause(s, n) >= 0 ==> s[find_clause(s, n)].0 == n,
        find_clause(s, n) < 0 ==> forall|j: int| 0 <= j < s.len() ==> s[j].0 != n,
    decreases s.len(),
{
    if s.len() > 0 {
        let t = s.drop_last();
        lemma_find_clause(t, n);
        assert forall|j: int| 0 <= j < s.len() && find_clause(s, n) < 0 implies s[j].0 != n by {
            if j < t.len() {
                assert(t[j] == s[j]);
            }
        }
    }
}

/// The clause numbered `n`, if the database holds one.
pub open spec fn lookup_clause(s: Seq<ClauseView>, n: Seq<char>) -> Option<ClauseView> {
    let f = find_clause(s, n);
    if f >= 0 {
        Some(s[f])
    } else {
        None
    }
}

/// Clause database keyed by clause number.
pub struct ClauseDb {
    entries: Vec<ClauseInfo>,
}

impl View for ClauseDb {
    type V = Seq<ClauseView>;

    closed spec fn view(&self) -> Seq<ClauseView> {
        self.entries@.map_values(|c: ClauseInfo| c@)
    }
}

impl ClauseDb {
    fn add(
        &mut self,
        number: &str,
        title: &str,
        risk: RiskLevel,
        description: &str,
        recommendation: &str,
    )
        ensures
            final(self)@ == old(self)@.push((number@, title@, risk, description@, recommendation@)),
    {
        let c = ClauseInfo {
            number: number.to_owned(),
            title: title.to_owned(),
            risk,
            description: description.to_owned(),
            recommendation: recommendation.to_owned(),
        };
        self.entries.push(c);
        assert(self@ =~= old(self)@.push((number@, title@, risk, description@, recommendation@)));
    }

    /// Number of clauses held.
    pub fn len(&self) -> (r: usize)
        ensures
            r == self@.len(),
    {
        self.entries.len()
    }

    /// All clauses, in the order they were added.
    pub fn entries(&self) -> (r: &Vec<ClauseInfo>)
        ensures
            r@.map_values(|c: ClauseInfo| c@) == self@,
    {
        &self.entries
    }

    fn position(&self, number: &str) -> (r: Option<usize>)
        ensures
            r matches Some(i) ==> find_clause(self@, number@) == i as int,
            r is None ==> find_clause(self@, number@) == -1,
    {
        let key = chars_of(number);
        let mut i: usize = 0;
        while i < self.entries.len()
            invariant
                i <= self.entries.len(),
                self@.len() == self.entries.len(),
                key@ == number@,
                find_clause(self@.take(i as int), number@) == -1,
            decreases self.entries.len() - i,
        {
            let ghost t = self@.take(i + 1);
            assert(t.drop_last() =~= self@.take(i as int));
            assert(t.last() == self.entries@[i as int]@);
            let n = chars_of(self.entries[i].number.as_str());
            assert(t.last().0 == n@);
            if vec_eq(&n, &key) {
                assert(find_clause(t, number@) == i as int);
                proof {
                    lemma_find_clause_prefix(self@, number@, i + 1);
                }
                return Some(i);
            }
            i = i + 1;
        }
        assert(self@.take(self.entries.len() as int) =~= self@);
        None
    }

    /// The clause with the given number.
    pub fn get(&self, number: &str) -> (r: Option<&ClauseInfo>)
        ensures
            match r {
                Some(c) => lookup_clause(self@, number@) == Some(c@),
                None => lookup_clause(self@, number@) is None,
            },
    {
        match self.position(number) {
            Some(i) => {
                proof {
                    lemma_find_clause(self@, number@);
                }
                Some(&self.entries[i])
            },
            None => None,
        }
    }

    /// Whether a clause with the given number is held.
    pub fn contains_key(&self, number: &str) -> (r: bool)
        ensures
            r == (lookup_clause(self@, number@) is Some),
    {
        self.position(number).is_some()
    }
}

/// The first clause numbered `n` in a prefix is the first in the whole.
pub proof fn lemma_find_clause_prefix(s: Seq<ClauseView>, n: Seq<char>, k: int)
    requires
        0 <= k <= s.len(),
        find_clause(s.take(k), n) >= 0,
    ensures
        find_clause(s, n) == find_clause(s.take(k), n),
    decreases s.len() - k,
{
    if k < s.len() {
        assert(s.drop_last().take(k) =~= s.take(k));
        lemma_find_clause_prefix(s.drop_last(), n, k);
    } else {
        assert(s.take(k) =~= s);
    }
}

/// Clause numbers of the database with their risk levels, in order.
pub open spec fn clause_risk_table() -> Seq<(Seq<char>, RiskLevel)> {
    seq![
        ("52.212-4"@, RiskLevel::Green),
        ("52.233-1"@, RiskLevel::Green),
        ("52.249-2"@, RiskLevel::Green),
        ("52.232-1"@, RiskLevel::Green),
        ("52.232-25"@, RiskLevel::Green),
        ("52.227-14"@, RiskLevel::Green),
        ("52.203-13"@, RiskLevel::Green),
        ("52.222-26"@, RiskLevel::Green),
        ("52.204-9"@, RiskLevel::Green),
        ("52.225-13"@, RiskLevel::Green),
        ("52.222-41"@, RiskLevel::Yellow),
        ("52.217-8"@, RiskLevel::Yellow),
        ("52.217-9"@, RiskLevel::Yellow),
        ("52.243-1"@, RiskLevel::Yellow),
        ("52.215-10"@, RiskLevel::Yellow),
        ("52.222-50"@, RiskLevel::Yellow),
        ("52.216-7"@, RiskLevel::Yellow),
        ("52.215-2"@, RiskLevel::Yellow),
        ("52.228-5"@, RiskLevel::Yellow),
        ("52.246-4"@, RiskLevel::Yellow),
        ("52.244-6"@, RiskLevel::Yellow),
        ("52.219-14"@, RiskLevel::Yellow),
        ("52.222-17"@, RiskLevel::Yellow),
        ("52.204-21"@, RiskLevel::Yellow),
        ("52.249-8"@, RiskLevel::Red),
        ("52.211-11"@, RiskLevel::Red),
        ("52.211-12"@, RiskLevel::Red),
        ("52.246-20"@, RiskLevel::Red),
        ("52.228-1"@, RiskLevel::Red),
        ("52.232-27"@, RiskLevel::Red),
        ("52.223-6"@, RiskLevel::Red),
        ("52.203-7"@, RiskLevel::Red),
        ("52.209-6"@, RiskLevel::Red),
        ("252.204-7012"@, RiskLevel::Red),
        ("252.225-7001"@, RiskLevel::Red),
        ("252.247-7023"@, RiskLevel::Red),
        ("52.249-14"@, RiskLevel::Red),
        ("52.232-17"@, RiskLevel::Red),
        ("52.215-14"@, RiskLevel::Red),
        ("52.203-3"@, RiskLevel::Red),
        ("52.222-21"@, RiskLevel::Green),
        ("52.204-7"@, RiskLevel::Green),
        ("52.232-33"@, RiskLevel::Green),
        ("52.203-17"@, RiskLevel::Green),
        ("52.222-36"@, RiskLevel::Green),
        ("52.204-13"@, RiskLevel::Green),
        ("52.232-40"@, RiskLevel::Green),
        ("52.219-8"@, RiskLevel::Yellow),
        ("52.222-35"@, RiskLevel::Yellow),
        ("52.222-37"@, RiskLevel::Yellow),
        ("52.204-4"@, RiskLevel::Yellow),
        ("52.227-2"@, RiskLevel::Yellow),
        ("52.247-64"@, RiskLevel::Yellow),
        ("52.219-28"@, RiskLevel::Yellow),
        ("52.215-15"@, RiskLevel::Yellow),
        ("252.204-7000"@, RiskLevel::Red),
        ("252.204-7008"@, RiskLevel::Red),
        ("252.204-7020"@, RiskLevel::Red),
        ("252.211-7003"@, RiskLevel::Red),
        ("252.223-7008"@, RiskLevel::Red),
        ("252.245-7001"@, RiskLevel::Red),
        ("252.203-7001"@, RiskLevel::Red),
        ("252.232-7010"@, RiskLevel::Red),
        ("52.212-5"@, RiskLevel::Red),
        ("52.230-2"@, RiskLevel::Red)
    ]
}

/// The clauses of the database, in order: number, title, risk, description
/// and recommendation.
pub open spec fn clause_table() -> Seq<ClauseView> {
    seq![
        ("52.212-4"@, "Contract Terms and Conditions — Commercial Products and Commercial Services"@, RiskLevel::Green, "Standard commercial-item terms. Balanced rights, dispute resolution, payment net-30."@, "Baseline acceptable. Review for non-standard deviations."@),
        ("52.233-1"@, "Disputes"@, RiskLevel::Green, "Mandates contractor continue performance during disputes. Provides claim rights."@, "Favorable — preserves contractor right to submit certified claims."@),
        ("52.249-2"@, "Termination for Convenience of the Government (Fixed-Price)"@, RiskLevel::Green, "Government may terminate; contractor recovers reasonable costs plus profit on completed work."@, "Standard T4C. Ensure your accounting captures settlement-eligible costs."@),
        ("52.232-1"@, "Payments"@, RiskLevel::Green, "Standard payment clause — Government pays within 30 days of proper invoice."@, "Acceptable. Track invoice submission dates carefully."@),
        ("52.232-25"@, "Prompt Payment"@, RiskLevel::Green, "Requires timely government payments; interest accrues automatically on late payments."@, "Favorable. No action needed."@),
        ("52.227-14"@, "Rights in Data — General"@, RiskLevel::Green, "Government receives unlimited rights in data first produced under the contract."@, "Review if contract involves proprietary pre-existing data or software."@),
        ("52.203-13"@, "Contractor Code of Business Ethics and Conduct"@, RiskLevel::Green, "Requires ethics program and hotline for contracts over $5.5M / 120 days."@, "Standard compliance requirement. Confirm internal ethics program is in place."@),
        ("52.222-26"@, "Equal Opportunity"@, RiskLevel::Green, "EEO obligations for contractors with 50+ employees or $50K+ contracts."@, "Standard compliance. Ensure AAP is current if thresholds met."@),
        ("52.204-9"@, "Personal Identity Verification of Contractor Personnel"@, RiskLevel::Green, "Requires PIV credentials for contractor employees who need access to federal facilities."@, "Acceptable. Budget time for PIV issuance in project schedule."@),
        ("52.225-13"@, "Restrictions on Certain Foreign Purchases"@, RiskLevel::Green, "Prohibits transactions with sanctioned countries/entities."@, "Standard compliance. Verify supply chain has no sanctioned-entity exposure."@),
        ("52.222-41"@, "Service Contract Labor Standards"@, RiskLevel::Yellow, "Requires payment of prevailing wages/fringe benefits set by Department of Labor wage determination."@, "Obtain current WD before bidding. Non-compliance triggers debarment."@),
        ("52.217-8"@, "Option to Extend Services"@, RiskLevel::Yellow, "Government may extend services up to 6 months at existing rates with 30-day notice."@, "Price option periods carefully — government can hold you to current rates."@),
        ("52.217-9"@, "Option to Extend the Term of the Contract"@, RiskLevel::Yellow, "Government may exercise priced option periods. Must be exercised before current period expires."@, "Ensure option-year pricing accounts for wage escalation and inflation."@),
        ("52.243-1"@, "Changes — Fixed-Price"@, RiskLevel::Yellow, "Allows unilateral government changes within general scope. Contractor may seek equitable adjustment."@, "File REA promptly — 30-day constructive notice period applies. Track all change impacts."@),
        ("52.215-10"@, "Price Reduction for Defective Certified Cost or Pricing Data"@, RiskLevel::Yellow, "Government can reduce contract price if certified cost data was defective."@, "Ensure TINA compliance if contract exceeds $2M threshold."@),
        ("52.222-50"@, "Combating Trafficking in Persons"@, RiskLevel::Yellow, "Prohibits trafficking in persons. Compliance plan required for contracts over $500K outside US."@, "Review subcontracting chain. Compliance plan required for overseas performance."@),
        ("52.216-7"@, "Allowable Cost and Payment"@, RiskLevel::Yellow, "Cost-reimbursement payment tied to allowable costs per FAR Part 31."@, "Requires robust cost accounting system. DCAA audit exposure."@),
        ("52.215-2"@, "Audit and Records — Negotiation"@, RiskLevel::Yellow, "Government has right to audit contractor records for 3 years post-completion."@, "Maintain complete records. Establish document retention policy now."@),
        ("52.228-5"@, "Insurance — Work on a Government Installation"@, RiskLevel::Yellow, "Requires specific insurance levels for work at government facilities."@, "Verify coverage meets minimums before performance begins."@),
        ("52.246-4"@, "Inspection of Services — Fixed-Price"@, RiskLevel::Yellow, "Government may inspect/reject services. Contractor remedies defects at own cost."@, "Implement QC plan. Document acceptance of each deliverable."@),
        ("52.244-6"@, "Subcontracts for Commercial Products and Commercial Services"@, RiskLevel::Yellow, "Requires flow-down of specific clauses to commercial-item subcontractors."@, "Audit subcontract templates for required flow-downs."@),
        ("52.219-14"@, "Limitations on Subcontracting"@, RiskLevel::Yellow, "Set-aside work must be self-performed at required percentages (e.g., 50% for services)."@, "Confirm self-performance capacity before bidding set-asides."@),
        ("52.222-17"@, "Nondisplacement of Qualified Workers"@, RiskLevel::Yellow, "Successor contractor must offer qualified service workers right of first refusal."@, "Budget for incumbent workforce absorption in transition plan."@),
        ("52.204-21"@, "Basic Safeguarding of Covered Contractor Information Systems"@, RiskLevel::Yellow, "Requires 15 basic NIST SP 800-171 safeguarding requirements for covered information."@, "Conduct gap assessment against NIST 800-171 before performance."@),
        ("52.249-8"@, "Default (Fixed-Price Supply and Service)"@, RiskLevel::Red, "Government may terminate for default, assess excess reprocurement costs, and pursue damages."@, "CRITICAL: Termination for default triggers excess-cost liability. Negotiate cure-notice rights."@),
        ("52.211-11"@, "Liquidated Damages — Supplies, Services, or Research and Development"@, RiskLevel::Red, "Pre-set damages per day of delay. Government withholds from payments automatically."@, "CRITICAL: Negotiate LD cap. Document all government-caused delays to assert excusable delay."@),
        ("52.211-12"@, "Liquidated Damages — Construction"@, RiskLevel::Red, "Daily LDs for late completion of construction. Can far exceed actual damages."@, "CRITICAL: Verify LD rate is proportional. Consider delay contingency in price."@),
        ("52.246-20"@, "Warranty of Services"@, RiskLevel::Red, "Contractor warrants services are performed in a workmanlike manner. Remediation at contractor cost."@, "HIGH RISK: Define warranty period and scope precisely. Limit re-performance obligation."@),
        ("52.228-1"@, "Bid Guarantee"@, RiskLevel::Red, "Failure to furnish required bid bond triggers forfeiture. Personal liability possible."@, "CRITICAL: Obtain bid bond before submission. Confirm bond amount matches requirement."@),
        ("52.232-27"@, "Prompt Payment for Construction Contracts"@, RiskLevel::Red, "Withholds retainage; subcontractor payment obligations flow down."@, "HIGH RISK: Model cash flow with retainage withheld. Negotiate retainage reduction at 50%."@),
        ("52.223-6"@, "Drug-Free Workplace"@, RiskLevel::Red, "Requires drug-free workplace program. Violations can trigger suspension/debarment."@, "HIGH RISK: Implement written DFWP policy before performance."@),
        ("52.203-7"@, "Anti-Kickback Procedures"@, RiskLevel::Red, "Requires reporting of kickbacks; violations are criminal."@, "CRITICAL: Train all purchasing personnel. Implement anti-kickback reporting hotline."@),
        ("52.209-6"@, "Protecting the Government's Interest When Subcontracting with Contractors Debarred, Suspended, or Proposed for Debarment"@, RiskLevel::Red, "Prohibits subcontracting with debarred/suspended entities. Contractor liable for violations."@, "CRITICAL: Screen all subcontractors/suppliers against SAM.gov Exclusions before award."@),
        ("252.204-7012"@, "Safeguarding Covered Defense Information and Cyber Incident Reporting"@, RiskLevel::Red, "DFARS: Requires NIST SP 800-171 compliance and 72-hour cyber incident reporting to DoD."@, "CRITICAL: CMMC/800-171 gap assessment required. Non-compliance risks contract termination."@),
        ("252.225-7001"@, "Buy American and Balance of Payments Program"@, RiskLevel::Red, "DFARS: End products must be domestic. Violation triggers price preference application."@, "HIGH RISK: Audit entire supply chain for domestic content. Foreign product use needs waiver."@),
        ("252.247-7023"@, "Transportation of Supplies by Sea"@, RiskLevel::Red, "DFARS: Ocean shipments must use US-flag vessels. Violations carry civil penalties."@, "HIGH RISK: Coordinate with freight forwarder on US-flag compliance before shipment."@),
        ("52.249-14"@, "Excusable Delays"@, RiskLevel::Red, "Only certain causes excuse delay (Acts of God, government acts, etc.). Burden on contractor."@, "HIGH RISK: Document force majeure events immediately. Issue cure/show-cause responses promptly."@),
        ("52.232-17"@, "Interest"@, RiskLevel::Red, "Contractor owes interest on government overpayments at Treasury rate."@, "HIGH RISK: Reconcile all interim payments promptly to avoid accruing interest liability."@),
        ("52.215-14"@, "Integrity of Unit Prices"@, RiskLevel::Red, "Prohibits spreading costs across line items (unbalanced bidding). Can trigger contract action."@, "CRITICAL: Review pricing to ensure no unbalanced spread before submission."@),
        ("52.203-3"@, "Gratuities"@, RiskLevel::Red, "Government may terminate contract if contractor offered gratuities to influence award or oversight."@, "CRITICAL: Document all government employee contacts. No gifts, meals, or entertainment."@),
        ("52.222-21"@, "Prohibition of Segregated Facilities"@, RiskLevel::Green, "Contractor must not maintain segregated facilities. Standard EEO compliance."@, "Standard compliance. Ensure posted notices are current."@),
        ("52.204-7"@, "System for Award Management"@, RiskLevel::Green, "Contractor must be registered in SAM.gov and maintain active registration."@, "Verify SAM registration is active before and throughout performance."@),
        ("52.232-33"@, "Payment by Electronic Funds Transfer — System for Award Management"@, RiskLevel::Green, "Payment made via EFT to the bank account registered in SAM.gov."@, "Keep SAM.gov banking information current to avoid payment delays."@),
        ("52.203-17"@, "Contractor Employee Whistleblower Rights and Requirement to Inform Employees of Whistleblower Rights"@, RiskLevel::Green, "Requires contractor to inform employees of whistleblower protections under 41 U.S.C. § 4712."@, "Post notice and include in employee onboarding materials."@),
        ("52.222-36"@, "Equal Opportunity for Workers with Disabilities"@, RiskLevel::Green, "Affirmative action obligations for contractors with contracts over $15K."@, "Standard compliance. Ensure ADAAA-compliant hiring practices."@),
        ("52.204-13"@, "System for Award Management Maintenance"@, RiskLevel::Green, "Requires maintaining accurate SAM.gov registration throughout contract performance."@, "Set a calendar reminder to renew SAM registration 60 days before expiration."@),
        ("52.232-40"@, "Providing Accelerated Payments to Small Business Subcontractors"@, RiskLevel::Green, "Prime must accelerate payments to small business subcontractors to the extent practicable."@, "Favorable for small business subs. Track subcontractor payment dates."@),
        ("52.219-8"@, "Utilization of Small Business Concerns"@, RiskLevel::Yellow, "Prime must use small business concerns to the maximum practicable extent."@, "Document outreach to small business subs. Maintain contact records."@),
        ("52.222-35"@, "Equal Opportunity for Veterans"@, RiskLevel::Yellow, "Affirmative action and reporting obligations for veterans under VEVRAA for contracts over $150K."@, "File VETS-4212 report annually. Maintain written VEVRAA AAP."@),
        ("52.222-37"@, "Employment Reports on Veterans"@, RiskLevel::Yellow, "Annual VETS-4212 filing required for contracts over $150K."@, "File by September 30 each year. Track hiring of protected veterans."@),
        ("52.204-4"@, "Printed or Copied Double-Sided on Postconsumer Fiber Content Paper"@, RiskLevel::Yellow, "Requires use of recycled-content paper for documents delivered under the contract."@, "Minor but enforceable. Source compliant paper before performance."@),
        ("52.227-2"@, "Notice and Assistance Regarding Patent and Copyright Infringement"@, RiskLevel::Yellow, "Contractor must report and assist with any patent/copyright infringement claims."@, "Review software licenses and third-party IP in deliverables."@),
        ("52.247-64"@, "Preference for Privately Owned U.S.-Flag Commercial Vessels"@, RiskLevel::Yellow, "Ocean shipments of at least 50% of cargo must use privately-owned US-flag vessels."@, "Coordinate with logistics team. Obtain waiver if US-flag vessel unavailable."@),
        ("52.219-28"@, "Post-Award Small Business Program Rerepresentation"@, RiskLevel::Yellow, "Contractor must rerepresent size status upon contract modifications, options, or mergers."@, "Track size recertification triggers — especially after acquisitions or novations."@),
        ("52.215-15"@, "Pension Adjustments and Asset Reversions"@, RiskLevel::Yellow, "Government may recover pension fund assets or adjustments in cost-type contracts."@, "Relevant for cost-type contracts. Consult DCAA before structuring pension plans."@),
        ("252.204-7000"@, "Disclosure of Information"@, RiskLevel::Red, "DFARS: Contractor must not release unclassified DoD information without prior approval."@, "HIGH RISK: Establish information disclosure review process before press releases or publications."@),
        ("252.204-7008"@, "Compliance with Safeguarding Covered Defense Information Controls"@, RiskLevel::Red, "DFARS: Contractor must comply with NIST SP 800-171 safeguards for covered defense information."@, "CRITICAL: Same as 7012 — conduct 800-171 gap assessment immediately."@),
        ("252.204-7020"@, "NIST SP 800-171 DoD Assessment Requirements"@, RiskLevel::Red, "DFARS: Contractor must have a current NIST SP 800-171 DoD Assessment on record in SPRS."@, "CRITICAL: Complete self-assessment and upload to SPRS before contract award."@),
        ("252.211-7003"@, "Item Unique Identification and Valuation"@, RiskLevel::Red, "DFARS: Requires marking and reporting of Government-furnished property and deliverables with IUID."@, "HIGH RISK: IUID non-compliance can block payment. Plan marking requirements in contract schedule."@),
        ("252.223-7008"@, "Prohibition of Hexavalent Chromium"@, RiskLevel::Red, "DFARS: Prohibits hexavalent chromium in coatings, platings, or other applications in deliverables."@, "HIGH RISK: Conduct materials review before fabrication. Document any exemption requests."@),
        ("252.245-7001"@, "Tagging, Labeling, and Marking of Government-Furnished Property"@, RiskLevel::Red, "DFARS: Contractor responsible for proper tagging and tracking of all GFP."@, "HIGH RISK: Establish GFP accountability system on day 1. Missing GFP triggers financial liability."@),
        ("252.203-7001"@, "Prohibition on Persons Convicted of Fraud or Other Defense Contract-Related Felonies"@, RiskLevel::Red, "DFARS: Prohibits employment of persons convicted of defense-contract fraud on covered contracts."@, "CRITICAL: Screen all employees with access to covered contracts against conviction records."@),
        ("252.232-7010"@, "Levies on Contract Payments"@, RiskLevel::Red, "DFARS: IRS or other government liens may be levied directly against contract payments."@, "HIGH RISK: Resolve any outstanding federal tax liens before contract performance."@),
        ("52.212-5"@, "Contract Terms and Conditions Required to Implement Statutes or Executive Orders — Commercial Products"@, RiskLevel::Red, "Incorporates a long list of statutory clauses by reference. Each has its own compliance burden."@, "CRITICAL: Review the full clause list in the contract — subparagraph checkboxes determine which apply."@),
        ("52.230-2"@, "Cost Accounting Standards"@, RiskLevel::Red, "Full CAS coverage required for contracts over $2M (or $50M for modified coverage). Non-compliance triggers price adjustments."@, "CRITICAL: Determine CAS coverage level before bid. Disclose CAS practices in CASB Disclosure Statement."@)
    ]
}

/// A FAR number `52.xxx-y` or `52.xxx-yy`, or a DFARS number
/// `252.xxx-yyyy`.
pub open spec fn clause_number_form(n: Seq<char>) -> bool {
    ||| (n.len() == 8 || n.len() == 9) && n[0] == '5' && n[1] == '2' && n[2] == '.' && digits(n, 3, 6)
        && n[6] == '-' && digits(n, 7, n.len() as int)
    ||| n.len() == 12 && n[0] == '2' && n[1] == '5' && n[2] == '2' && n[3] == '.' && digits(n, 4, 7)
        && n[7] == '-' && digits(n, 8, 12)
}

/// The characters of `n` at positions `a..b` are decimal digits.
pub open spec fn digits(n: Seq<char>, a: int, b: int) -> bool {
    forall|i: int| a <= i < b ==> '0' <= #[trigger] n[i] <= '9'
}

/// A clause with a well-formed number and non-empty texts.
pub open spec fn entry_ok(c: ClauseView) -> bool {
    clause_number_form(c.0) && c.1.len() > 0 && c.3.len() > 0 && c.4.len() > 0
}

/// Every clause of the database has a well-formed FAR or DFARS number and
/// non-empty title, description and recommendation.
#[verifier::rlimit(100)]
pub proof fn lemma_clause_table_well_formed()
    ensures
        clause_table().len() == 65,
        forall|i: int| 0 <= i < clause_table().len() ==> entry_ok(#[trigger] clause_table()[i]),
{
    reveal_strlit("52.212-4");
    reveal_strlit("Contract Terms and Conditions — Commercial Products and Commercial Services");
    reveal_strlit("Standard commercial-item terms. Balanced rights, dispute resolution, payment net-30.");
    reveal_strlit("Baseline acceptable. Review for non-standard deviations.");
    reveal_strlit("52.233-1");
    reveal_strlit("Disputes");
    reveal_strlit("Mandates contractor continue performance during disputes. Provides claim rights.");
    reveal_strlit("Favorable — preserves contractor right to submit certified claims.");
    reveal_strlit("52.249-2");
    reveal_strlit("Termination for Convenience of the Government (Fixed-Price)");
    reveal_strlit("Government may terminate; contractor recovers reasonable costs plus profit on completed work.");
    reveal_strlit("Standard T4C. Ensure your accounting captures settlement-eligible costs.");
    reveal_strlit("52.232-1");
    reveal_strlit("Payments");
    reveal_strlit("Standard payment clause — Government pays within 30 days of proper invoice.");
    reveal_strlit("Acceptable. Track invoice submission dates carefully.");
    reveal_strlit("52.232-25");
    reveal_strlit("Prompt Payment");
    reveal_strlit("Requires timely government payments; interest accrues automatically on late payments.");
    reveal_strlit("Favorable. No action needed.");
    reveal_strlit("52.227-14");
    reveal_strlit("Rights in Data — General");
    reveal_strlit("Government receives unlimited rights in data first produced under the contract.");
    reveal_strlit("Review if contract involves proprietary pre-existing data or software.");
    reveal_strlit("52.203-13");
    reveal_strlit("Contractor Code of Business Ethics and Conduct");
    reveal_strlit("Requires ethics program and hotline for contracts over $5.5M / 120 days.");
    reveal_strlit("Standard compliance requirement. Confirm internal ethics program is in place.");
    reveal_strlit("52.222-26");
    reveal_strlit("Equal Opportunity");
    reveal_strlit("EEO obligations for contractors with 50+ employees or $50K+ contracts.");
    reveal_strlit("Standard compliance. Ensure AAP is current if thresholds met.");
    reveal_strlit("52.204-9");
    reveal_strlit("Personal Identity Verification of Contractor Personnel");
    reveal_strlit("Requires PIV credentials for contractor employees who need access to federal facilities.");
    reveal_strlit("Acceptable. Budget time for PIV issuance in project schedule.");
    reveal_strlit("52.225-13");
    reveal_strlit("Restrictions on Certain Foreign Purchases");
    reveal_strlit("Prohibits transactions with sanctioned countries/entities.");
    reveal_strlit("Standard compliance. Verify supply chain has no sanctioned-entity exposure.");
    reveal_strlit("52.222-41");
    reveal_strlit("Service Contract Labor Standards");
    reveal_strlit("Requires payment of prevailing wages/fringe benefits set by Department of Labor wage determination.");
    reveal_strlit("Obtain current WD before bidding. Non-compliance triggers debarment.");
    reveal_strlit("52.217-8");
    reveal_strlit("Option to Extend Services");
    reveal_strlit("Government may extend services up to 6 months at existing rates with 30-day notice.");
    reveal_strlit("Price option periods carefully — government can hold you to current rates.");
    reveal_strlit("52.217-9");
    reveal_strlit("Option to Extend the Term of the Contract");
    reveal_strlit("Government may exercise priced option periods. Must be exercised before current period expires.");
    reveal_strlit("Ensure option-year pricing accounts for wage escalation and inflation.");
    reveal_strlit("52.243-1");
    reveal_strlit("Changes — Fixed-Price");
    reveal_strlit("Allows unilateral government changes within general scope. Contractor may seek equitable adjustment.");
    reveal_strlit("File REA promptly — 30-day constructive notice period applies. Track all change impacts.");
    reveal_strlit("52.215-10");
    reveal_strlit("Price Reduction for Defective Certified Cost or Pricing Data");
    reveal_strlit("Government can reduce contract price if certified cost data was defective.");
    reveal_strlit("Ensure TINA compliance if contract exceeds $2M threshold.");
    reveal_strlit("52.222-50");
    reveal_strlit("Combating Trafficking in Persons");
    reveal_strlit("Prohibits trafficking in persons. Compliance plan required for contracts over $500K outside US.");
    reveal_strlit("Review subcontracting chain. Compliance plan required for overseas performance.");
    reveal_strlit("52.216-7");
    reveal_strlit("Allowable Cost and Payment");
    reveal_strlit("Cost-reimbursement payment tied to allowable costs per FAR Part 31.");
    reveal_strlit("Requires robust cost accounting system. DCAA audit exposure.");
    reveal_strlit("52.215-2");
    reveal_strlit("Audit and Records — Negotiation");
    reveal_strlit("Government has right to audit contractor records for 3 years post-completion.");
    reveal_strlit("Maintain complete records. Establish document retention policy now.");
    reveal_strlit("52.228-5");
    reveal_strlit("Insurance — Work on a Government Installation");
    reveal_strlit("Requires specific insurance levels for work at government facilities.");
    reveal_strlit("Verify coverage meets minimums before performance begins.");
    reveal_strlit("52.246-4");
    reveal_strlit("Inspection of Services — Fixed-Price");
    reveal_strlit("Government may inspect/reject services. Contractor remedies defects at own cost.");
    reveal_strlit("Implement QC plan. Document acceptance of each deliverable.");
    reveal_strlit("52.244-6");
    reveal_strlit("Subcontracts for Commercial Products and Commercial Services");
    reveal_strlit("Requires flow-down of specific clauses to commercial-item subcontractors.");
    reveal_strlit("Audit subcontract templates for required flow-downs.");
    reveal_strlit("52.219-14");
    reveal_strlit("Limitations on Subcontracting");
    reveal_strlit("Set-aside work must be self-performed at required percentages (e.g., 50% for services).");
    reveal_strlit("Confirm self-performance capacity before bidding set-asides.");
    reveal_strlit("52.222-17");
    reveal_strlit("Nondisplacement of Qualified Workers");
    reveal_strlit("Successor contractor must offer qualified service workers right of first refusal.");
    reveal_strlit("Budget for incumbent workforce absorption in transition plan.");
    reveal_strlit("52.204-21");
    reveal_strlit("Basic Safeguarding of Covered Contractor Information Systems");
    reveal_strlit("Requires 15 basic NIST SP 800-171 safeguarding requirements for covered information.");
    reveal_strlit("Conduct gap assessment against NIST 800-171 before performance.");
    reveal_strlit("52.249-8");
    reveal_strlit("Default (Fixed-Price Supply and Service)");
    reveal_strlit("Government may terminate for default, assess excess reprocurement costs, and pursue damages.");
    reveal_strlit("CRITICAL: Termination for default triggers excess-cost liability. Negotiate cure-notice rights.");
    reveal_strlit("52.211-11");
    reveal_strlit("Liquidated Damages — Supplies, Services, or Research and Development");
    reveal_strlit("Pre-set damages per day of delay. Government withholds from payments automatically.");
    reveal_strlit("CRITICAL: Negotiate LD cap. Document all government-caused delays to assert excusable delay.");
    reveal_strlit("52.211-12");
    reveal_strlit("Liquidated Damages — Construction");
    reveal_strlit("Daily LDs for late completion of construction. Can far exceed actual damages.");
    reveal_strlit("CRITICAL: Verify LD rate is proportional. Consider delay contingency in price.");
    reveal_strlit("52.246-20");
    reveal_strlit("Warranty of Services");
    reveal_strlit("Contractor warrants services are performed in a workmanlike manner. Remediation at contractor cost.");
    reveal_strlit("HIGH RISK: Define warranty period and scope precisely. Limit re-performance obligation.");
    reveal_strlit("52.228-1");
    reveal_strlit("Bid Guarantee");
    reveal_strlit("Failure to furnish required bid bond triggers forfeiture. Personal liability possible.");
    reveal_strlit("CRITICAL: Obtain bid bond before submission. Confirm bond amount matches requirement.");
    reveal_strlit("52.232-27");
    reveal_strlit("Prompt Payment for Construction Contracts");
    reveal_strlit("Withholds retainage; subcontractor payment obligations flow down.");
    reveal_strlit("HIGH RISK: Model cash flow with retainage withheld. Negotiate retainage reduction at 50%.");
    reveal_strlit("52.223-6");
    reveal_strlit("Drug-Free Workplace");
    reveal_strlit("Requires drug-free workplace program. Violations can trigger suspension/debarment.");
    reveal_strlit("HIGH RISK: Implement written DFWP policy before performance.");
    reveal_strlit("52.203-7");
    reveal_strlit("Anti-Kickback Procedures");
    reveal_strlit("Requires reporting of kickbacks; violations are criminal.");
    reveal_strlit("CRITICAL: Train all purchasing personnel. Implement anti-kickback reporting hotline.");
    reveal_strlit("52.209-6");
    reveal_strlit("Protecting the Government's Interest When Subcontracting with Contractors Debarred, Suspended, or Proposed for Debarment");
    reveal_strlit("Prohibits subcontracting with debarred/suspended entities. Contractor liable for violations.");
    reveal_strlit("CRITICAL: Screen all subcontractors/suppliers against SAM.gov Exclusions before award.");
    reveal_strlit("252.204-7012");
    reveal_strlit("Safeguarding Covered Defense Information and Cyber Incident Reporting");
    reveal_strlit("DFARS: Requires NIST SP 800-171 compliance and 72-hour cyber incident reporting to DoD.");
    reveal_strlit("CRITICAL: CMMC/800-171 gap assessment required. Non-compliance risks contract termination.");
    reveal_strlit("252.225-7001");
    reveal_strlit("Buy American and Balance of Payments Program");
    reveal_strlit("DFARS: End products must be domestic. Violation triggers price preference application.");
    reveal_strlit("HIGH RISK: Audit entire supply chain for domestic content. Foreign product use needs waiver.");
    reveal_strlit("252.247-7023");
    reveal_strlit("Transportation of Supplies by Sea");
    reveal_strlit("DFARS: Ocean shipments must use US-flag vessels. Violations carry civil penalties.");
    reveal_strlit("HIGH RISK: Coordinate with freight forwarder on US-flag compliance before shipment.");
    reveal_strlit("52.249-14");
    reveal_strlit("Excusable Delays");
    reveal_strlit("Only certain causes excuse delay (Acts of God, government acts, etc.). Burden on contractor.");
    reveal_strlit("HIGH RISK: Document force majeure events immediately. Issue cure/show-cause responses promptly.");
    reveal_strlit("52.232-17");
    reveal_strlit("Interest");
    reveal_strlit("Contractor owes interest on government overpayments at Treasury rate.");
    reveal_strlit("HIGH RISK: Reconcile all interim payments promptly to avoid accruing interest liability.");
    reveal_strlit("52.215-14");
    reveal_strlit("Integrity of Unit Prices");
    reveal_strlit("Prohibits spreading costs across line items (unbalanced bidding). Can trigger contract action.");
    reveal_strlit("CRITICAL: Review pricing to ensure no unbalanced spread before submission.");
    reveal_strlit("52.203-3");
    reveal_strlit("Gratuities");
    reveal_strlit("Government may terminate contract if contractor offered gratuities to influence award or oversight.");
    reveal_strlit("CRITICAL: Document all government employee contacts. No gifts, meals, or entertainment.");
    reveal_strlit("52.222-21");
    reveal_strlit("Prohibition of Segregated Facilities");
    reveal_strlit("Contractor must not maintain segregated facilities. Standard EEO compliance.");
    reveal_strlit("Standard compliance. Ensure posted notices are current.");
    reveal_strlit("52.204-7");
    reveal_strlit("System for Award Management");
    reveal_strlit("Contractor must be registered in SAM.gov and maintain active registration.");
    reveal_strlit("Verify SAM registration is active before and throughout performance.");
    reveal_strlit("52.232-33");
    reveal_strlit("Payment by Electronic Funds Transfer — System for Award Management");
    reveal_strlit("Payment made via EFT to the bank account registered in SAM.gov.");
    reveal_strlit("Keep SAM.gov banking information current to avoid payment delays.");
    reveal_strlit("52.203-17");
    reveal_strlit("Contractor Employee Whistleblower Rights and Requirement to Inform Employees of Whistleblower Rights");
    reveal_strlit("Requires contractor to inform employees of whistleblower protections under 41 U.S.C. § 4712.");
    reveal_strlit("Post notice and include in employee onboarding materials.");
    reveal_strlit("52.222-36");
    reveal_strlit("Equal Opportunity for Workers with Disabilities");
    reveal_strlit("Affirmative action obligations for contractors with contracts over $15K.");
    reveal_strlit("Standard compliance. Ensure ADAAA-compliant hiring practices.");
    reveal_strlit("52.204-13");
    reveal_strlit("System for Award Management Maintenance");
    reveal_strlit("Requires maintaining accurate SAM.gov registration throughout contract performance.");
    reveal_strlit("Set a calendar reminder to renew SAM registration 60 days before expiration.");
    reveal_strlit("52.232-40");
    reveal_strlit("Providing Accelerated Payments to Small Business Subcontractors");
    reveal_strlit("Prime must accelerate payments to small business subcontractors to the extent practicable.");
    reveal_strlit("Favorable for small business subs. Track subcontractor payment dates.");
    reveal_strlit("52.219-8");
    reveal_strlit("Utilization of Small Business Concerns");
    reveal_strlit("Prime must use small business concerns to the maximum practicable extent.");
    reveal_strlit("Document outreach to small business subs. Maintain contact records.");
    reveal_strlit("52.222-35");
    reveal_strlit("Equal Opportunity for Veterans");
    reveal_strlit("Affirmative action and reporting obligations for veterans under VEVRAA for contracts over $150K.");
    reveal_strlit("File VETS-4212 report annually. Maintain written VEVRAA AAP.");
    reveal_strlit("52.222-37");
    reveal_strlit("Employment Reports on Veterans");
    reveal_strlit("Annual VETS-4212 filing required for contracts over $150K.");
    reveal_strlit("File by September 30 each year. Track hiring of protected veterans.");
    reveal_strlit("52.204-4");
    reveal_strlit("Printed or Copied Double-Sided on Postconsumer Fiber Content Paper");
    reveal_strlit("Requires use of recycled-content paper for documents delivered under the contract.");
    reveal_strlit("Minor but enforceable. Source compliant paper before performance.");
    reveal_strlit("52.227-2");
    reveal_strlit("Notice and Assistance Regarding Patent and Copyright Infringement");
    reveal_strlit("Contractor must report and assist with any patent/copyright infringement claims.");
    reveal_strlit("Review software licenses and third-party IP in deliverables.");
    reveal_strlit("52.247-64");
    reveal_strlit("Preference for Privately Owned U.S.-Flag Commercial Vessels");
    reveal_strlit("Ocean shipments of at least 50% of cargo must use privately-owned US-flag vessels.");
    reveal_strlit("Coordinate with logistics team. Obtain waiver if US-flag vessel unavailable.");
    reveal_strlit("52.219-28");
    reveal_strlit("Post-Award Small Business Program Rerepresentation");
    reveal_strlit("Contractor must rerepresent size status upon contract modifications, options, or mergers.");
    reveal_strlit("Track size recertification triggers — especially after acquisitions or novations.");
    reveal_strlit("52.215-15");
    reveal_strlit("Pension Adjustments and Asset Reversions");
    reveal_strlit("Government may recover pension fund assets or adjustments in cost-type contracts.");
    reveal_strlit("Relevant for cost-type contracts. Consult DCAA before structuring pension plans.");
    reveal_strlit("252.204-7000");
    reveal_strlit("Disclosure of Information");
    reveal_strlit("DFARS: Contractor must not release unclassified DoD information without prior approval.");
    reveal_strlit("HIGH RISK: Establish information disclosure review process before press releases or publications.");
    reveal_strlit("252.204-7008");
    reveal_strlit("Compliance with Safeguarding Covered Defense Information Controls");
    reveal_strlit("DFARS: Contractor must comply with NIST SP 800-171 safeguards for covered defense information.");
    reveal_strlit("CRITICAL: Same as 7012 — conduct 800-171 gap assessment immediately.");
    reveal_strlit("252.204-7020");
    reveal_strlit("NIST SP 800-171 DoD Assessment Requirements");
    reveal_strlit("DFARS: Contractor must have a current NIST SP 800-171 DoD Assessment on record in SPRS.");
    reveal_strlit("CRITICAL: Complete self-assessment and upload to SPRS before contract award.");
    reveal_strlit("252.211-7003");
    reveal_strlit("Item Unique Identification and Valuation");
    reveal_strlit("DFARS: Requires marking and reporting of Government-furnished property and deliverables with IUID.");
    reveal_strlit("HIGH RISK: IUID non-compliance can block payment. Plan marking requirements in contract schedule.");
    reveal_strlit("252.223-7008");
    reveal_strlit("Prohibition of Hexavalent Chromium");
    reveal_strlit("DFARS: Prohibits hexavalent chromium in coatings, platings, or other applications in deliverables.");
    reveal_strlit("HIGH RISK: Conduct materials review before fabrication. Document any exemption requests.");
    reveal_strlit("252.245-7001");
    reveal_strlit("Tagging, Labeling, and Marking of Government-Furnished Property");
    reveal_strlit("DFARS: Contractor responsible for proper tagging and tracking of all GFP.");
    reveal_strlit("HIGH RISK: Establish GFP accountability system on day 1. Missing GFP triggers financial liability.");
    reveal_strlit("252.203-7001");
    reveal_strlit("Prohibition on Persons Convicted of Fraud or Other Defense Contract-Related Felonies");
    reveal_strlit("DFARS: Prohibits employment of persons convicted of defense-contract fraud on covered contracts.");
    reveal_strlit("CRITICAL: Screen all employees with access to covered contracts against conviction records.");
    reveal_strlit("252.232-7010");
    reveal_strlit("Levies on Contract Payments");
    reveal_strlit("DFARS: IRS or other government liens may be levied directly against contract payments.");
    reveal_strlit("HIGH RISK: Resolve any outstanding federal tax liens before contract performance.");
    reveal_strlit("52.212-5");
    reveal_strlit("Contract Terms and Conditions Required to Implement Statutes or Executive Orders — Commercial Products");
    reveal_strlit("Incorporates a long list of statutory clauses by reference. Each has its own compliance burden.");
    reveal_strlit("CRITICAL: Review the full clause list in the contract — subparagraph checkboxes determine which apply.");
    reveal_strlit("52.230-2");
    reveal_strlit("Cost Accounting Standards");
    reveal_strlit("Full CAS coverage required for contracts over $2M (or $50M for modified coverage). Non-compliance triggers price adjustments.");
    reveal_strlit("CRITICAL: Determine CAS coverage level before bid. Disclose CAS practices in CASB Disclosure Statement.");
    assert(entry_ok(clause_table()[0]));
    assert(entry_ok(clause_table()[1]));
    assert(entry_ok(clause_table()[2]));
    assert(entry_ok(clause_table()[3]));
    assert(entry_ok(clause_table()[4]));
    assert(entry_ok(clause_table()[5]));
    assert(entry_ok(clause_table()[6]));
    assert(entry_ok(clause_table()[7]));
    assert(entry_ok(clause_table()[8]));
    assert(entry_ok(clause_table()[9]));
    assert(entry_ok(clause_table()[10]));
    assert(entry_ok(clause_table()[11]));
    assert(entry_ok(clause_table()[12]));
    assert(entry_ok(clause_table()[13]));
    assert(entry_ok(clause_table()[14]));
    assert(entry_ok(clause_table()[15]));
    assert(entry_ok(clause_table()[16]));
    assert(entry_ok(clause_table()[17]));
    assert(entry_ok(clause_table()[18]));
    assert(entry_ok(clause_table()[19]));
    assert(entry_ok(clause_table()[20]));
    assert(entry_ok(clause_table()[21]));
    assert(entry_ok(clause_table()[22]));
    assert(entry_ok(clause_table()[23]));
    assert(entry_ok(clause_table()[24]));
    assert(entry_ok(clause_table()[25]));
    assert(entry_ok(clause_table()[26]));
    assert(entry_ok(clause_table()[27]));
    assert(entry_ok(clause_table()[28]));
    assert(entry_ok(clause_table()[29]));
    assert(entry_ok(clause_table()[30]));
    assert(entry_ok(clause_table()[31]));
    assert(entry_ok(clause_table()[32]));
    assert(entry_ok(clause_table()[33]));
    assert(entry_ok(clause_table()[34]));
    assert(entry_ok(clause_table()[35]));
    assert(entry_ok(clause_table()[36]));
    assert(entry_ok(clause_table()[37]));
    assert(entry_ok(clause_table()[38]));
    assert(entry_ok(clause_table()[39]));
    assert(entry_ok(clause_table()[40]));
    assert(entry_ok(clause_table()[41]));
    assert(entry_ok(clause_table()[42]));
    assert(entry_ok(clause_table()[43]));
    assert(entry_ok(clause_table()[44]));
    assert(entry_ok(clause_table()[45]));
    assert(entry_ok(clause_table()[46]));
    assert(entry_ok(clause_table()[47]));
    assert(entry_ok(clause_table()[48]));
    assert(entry_ok(clause_table()[49]));
    assert(entry_ok(clause_table()[50]));
    assert(entry_ok(clause_table()[51]));
    assert(entry_ok(clause_table()[52]));
    assert(entry_ok(clause_table()[53]));
    assert(entry_ok(clause_table()[54]));
    assert(entry_ok(clause_table()[55]));
    assert(entry_ok(clause_table()[56]));
    assert(entry_ok(clause_table()[57]));
    assert(entry_ok(clause_table()[58]));
    assert(entry_ok(clause_table()[59]));
    assert(entry_ok(clause_table()[60]));
    assert(entry_ok(clause_table()[61]));
    assert(entry_ok(clause_table()[62]));
    assert(entry_ok(clause_table()[63]));
    assert(entry_ok(clause_table()[64]));
    assert forall|i: int| 0 <= i < clause_table().len() implies entry_ok(#[trigger] clause_table()[i]) by {
        if i == 0 {
        } else if i == 1 {
        } else if i == 2 {
        } else if i == 3 {
        } else if i == 4 {
        } else if i == 5 {
        } else if i == 6 {
        } else if i == 7 {
        } else if i == 8 {
        } else if i == 9 {
        } else if i == 10 {
        } else if i == 11 {
        } else if i == 12 {
        } else if i == 13 {
        } else if i == 14 {
        } else if i == 15 {
        } else if i == 16 {
        } else if i == 17 {
        } else if i == 18 {
        } else if i == 19 {
        } else if i == 20 {
        } else if i == 21 {
        } else if i == 22 {
        } else if i == 23 {
        } else if i == 24 {
        } else if i == 25 {
        } else if i == 26 {
        } else if i == 27 {
        } else if i == 28 {
        } else if i == 29 {
        } else if i == 30 {
        } else if i == 31 {
        } else if i == 32 {
        } else if i == 33 {
        } else if i == 34 {
        } else if i == 35 {
        } else if i == 36 {
        } else if i == 37 {
        } else if i == 38 {
        } else if i == 39 {
        } else if i == 40 {
        } else if i == 41 {
        } else if i == 42 {
        } else if i == 43 {
        } else if i == 44 {
        } else if i == 45 {
        } else if i == 46 {
        } else if i == 47 {
        } else if i == 48 {
        } else if i == 49 {
        } else if i == 50 {
        } else if i == 51 {
        } else if i == 52 {
        } else if i == 53 {
        } else if i == 54 {
        } else if i == 55 {
        } else if i == 56 {
        } else if i == 57 {
        } else if i == 58 {
        } else if i == 59 {
        } else if i == 60 {
        } else if i == 61 {
        } else if i == 62 {
        } else if i == 63 {
        } else if i == 64 {
        }
    }
}

/// Number and risk of each clause.
pub open spec fn numbers_and_risks(s: Seq<ClauseView>) -> Seq<(Seq<char>, RiskLevel)> {
    s.map_values(|c: ClauseView| (c.0, c.2))
}

proof fn lemma_table_risks()
    ensures
        numbers_and_risks(clause_table()) == clause_risk_table(),
{
    assert(numbers_and_risks(clause_table()) =~= clause_risk_table());
}

/// Builds the clause database.
#[verifier::rlimit(100)]
pub fn build_clause_db() -> (r: ClauseDb)
    ensures
        r@ == clause_table(),
        numbers_and_risks(r@) == clause_risk_table(),
{
    let mut db = ClauseDb { entries: Vec::new() };
    let ghost start = db@;
    db.add(
        "52.212-4",
        "Contract Terms and Conditions — Commercial Products and Commercial Services",
        RiskLevel::Green,
        "Standard commercial-item terms. Balanced rights, dispute resolution, payment net-30.",
        "Baseline acceptable. Review for non-standard deviations.",
    );
    db.add(
        "52.233-1",
        "Disputes",
        RiskLevel::Green,
        "Mandates contractor continue performance during disputes. Provides claim rights.",
        "Favorable — preserves contractor right to submit certified claims.",
    );
    db.add(
        "52.249-2",
        "Termination for Convenience of the Government (Fixed-Price)",
        RiskLevel::Green,
        "Government may terminate; contractor recovers reasonable costs plus profit on completed work.",
        "Standard T4C. Ensure your accounting captures settlement-eligible costs.",
    );
    db.add(
        "52.232-1",
        "Payments",
        RiskLevel::Green,
        "Standard payment clause — Government pays within 30 days of proper invoice.",
        "Acceptable. Track invoice submission dates carefully.",
    );
    db.add(
        "52.232-25",
        "Prompt Payment",
        RiskLevel::Green,
        "Requires timely government payments; interest accrues automatically on late payments.",
        "Favorable. No action needed.",
    );
    db.add(
        "52.227-14",
        "Rights in Data — General",
        RiskLevel::Green,
        "Government receives unlimited rights in data first produced under the contract.",
        "Review if contract involves proprietary pre-existing data or software.",
    );
    db.add(
        "52.203-13",
        "Contractor Code of Business Ethics and Conduct",
        RiskLevel::Green,
        "Requires ethics program and hotline for contracts over $5.5M / 120 days.",
        "Standard compliance requirement. Confirm internal ethics program is in place.",
    );
    db.add(
        "52.222-26",
        "Equal Opportunity",
        RiskLevel::Green,
        "EEO obligations for contractors with 50+ employees or $50K+ contracts.",
        "Standard compliance. Ensure AAP is current if thresholds met.",
    );
    db.add(
        "52.204-9",
        "Personal Identity Verification of Contractor Personnel",
        RiskLevel::Green,
        "Requires PIV credentials for contractor employees who need access to federal facilities.",
        "Acceptable. Budget time for PIV issuance in project schedule.",
    );
    db.add(
        "52.225-13",
        "Restrictions on Certain Foreign Purchases",
        RiskLevel::Green,
        "Prohibits transactions with sanctioned countries/entities.",
        "Standard compliance. Verify supply chain has no sanctioned-entity exposure.",
    );
    db.add(
        "52.222-41",
        "Service Contract Labor Standards",
        RiskLevel::Yellow,
        "Requires payment of prevailing wages/fringe benefits set by Department of Labor wage determination.",
        "Obtain current WD before bidding. Non-compliance triggers debarment.",
    );
    db.add(
        "52.217-8",
        "Option to Extend Services",
        RiskLevel::Yellow,
        "Government may extend services up to 6 months at existing rates with 30-day notice.",
        "Price option periods carefully — government can hold you to current rates.",
    );
    db.add(
        "52.217-9",
        "Option to Extend the Term of the Contract",
        RiskLevel::Yellow,
        "Government may exercise priced option periods. Must be exercised before current period expires.",
        "Ensure option-year pricing accounts for wage escalation and inflation.",
    );
    db.add(
        "52.243-1",
        "Changes — Fixed-Price",
        RiskLevel::Yellow,
        "Allows unilateral government changes within general scope. Contractor may seek equitable adjustment.",
        "File REA promptly — 30-day constructive notice period applies. Track all change impacts.",
    );
    db.add(
        "52.215-10",
        "Price Reduction for Defective Certified Cost or Pricing Data",
        RiskLevel::Yellow,
        "Government can reduce contract price if certified cost data was defective.",
        "Ensure TINA compliance if contract exceeds $2M threshold.",
    );
    db.add(
        "52.222-50",
        "Combating Trafficking in Persons",
        RiskLevel::Yellow,
        "Prohibits trafficking in persons. Compliance plan required for contracts over $500K outside US.",
        "Review subcontracting chain. Compliance plan required for overseas performance.",
    );
    db.add(
        "52.216-7",
        "Allowable Cost and Payment",
        RiskLevel::Yellow,
        "Cost-reimbursement payment tied to allowable costs per FAR Part 31.",
        "Requires robust cost accounting system. DCAA audit exposure.",
    );
    db.add(
        "52.215-2",
        "Audit and Records — Negotiation",
        RiskLevel::Yellow,
        "Government has right to audit contractor records for 3 years post-completion.",
        "Maintain complete records. Establish document retention policy now.",
    );
    db.add(
        "52.228-5",
        "Insurance — Work on a Government Installation",
        RiskLevel::Yellow,
        "Requires specific insurance levels for work at government facilities.",
        "Verify coverage meets minimums before performance begins.",
    );
    db.add(
        "52.246-4",
        "Inspection of Services — Fixed-Price",
        RiskLevel::Yellow,
        "Government may inspect/reject services. Contractor remedies defects at own cost.",
        "Implement QC plan. Document acceptance of each deliverable.",
    );
    db.add(
        "52.244-6",
        "Subcontracts for Commercial Products and Commercial Services",
        RiskLevel::Yellow,
        "Requires flow-down of specific clauses to commercial-item subcontractors.",
        "Audit subcontract templates for required flow-downs.",
    );
    db.add(
        "52.219-14",
        "Limitations on Subcontracting",
        RiskLevel::Yellow,
        "Set-aside work must be self-performed at required percentages (e.g., 50% for services).",
        "Confirm self-performance capacity before bidding set-asides.",
    );
    db.add(
        "52.222-17",
        "Nondisplacement of Qualified Workers",
        RiskLevel::Yellow,
        "Successor contractor must offer qualified service workers right of first refusal.",
        "Budget for incumbent workforce absorption in transition plan.",
    );
    db.add(
        "52.204-21",
        "Basic Safeguarding of Covered Contractor Information Systems",
        RiskLevel::Yellow,
        "Requires 15 basic NIST SP 800-171 safeguarding requirements for covered information.",
        "Conduct gap assessment against NIST 800-171 before performance.",
    );
    db.add(
        "52.249-8",
        "Default (Fixed-Price Supply and Service)",
        RiskLevel::Red,
        "Government may terminate for default, assess excess reprocurement costs, and pursue damages.",
        "CRITICAL: Termination for default triggers excess-cost liability. Negotiate cure-notice rights.",
    );
    db.add(
        "52.211-11",
        "Liquidated Damages — Supplies, Services, or Research and Development",
        RiskLevel::Red,
        "Pre-set damages per day of delay. Government withholds from payments automatically.",
        "CRITICAL: Negotiate LD cap. Document all government-caused delays to assert excusable delay.",
    );
    db.add(
        "52.211-12",
        "Liquidated Damages — Construction",
        RiskLevel::Red,
        "Daily LDs for late completion of construction. Can far exceed actual damages.",
        "CRITICAL: Verify LD rate is proportional. Consider delay contingency in price.",
    );
    db.add(
        "52.246-20",
        "Warranty of Services",
        RiskLevel::Red,
        "Contractor warrants services are performed in a workmanlike manner. Remediation at contractor cost.",
        "HIGH RISK: Define warranty period and scope precisely. Limit re-performance obligation.",
    );
    db.add(
        "52.228-1",
        "Bid Guarantee",
        RiskLevel::Red,
        "Failure to furnish required bid bond triggers forfeiture. Personal liability possible.",
        "CRITICAL: Obtain bid bond before submission. Confirm bond amount matches requirement.",
    );
    db.add(
        "52.232-27",
        "Prompt Payment for Construction Contracts",
        RiskLevel::Red,
        "Withholds retainage; subcontractor payment obligations flow down.",
        "HIGH RISK: Model cash flow with retainage withheld. Negotiate retainage reduction at 50%.",
    );
    db.add(
        "52.223-6",
        "Drug-Free Workplace",
        RiskLevel::Red,
        "Requires drug-free workplace program. Violations can trigger suspension/debarment.",
        "HIGH RISK: Implement written DFWP policy before performance.",
    );
    db.add(
        "52.203-7",
        "Anti-Kickback Procedures",
        RiskLevel::Red,
        "Requires reporting of kickbacks; violations are criminal.",
        "CRITICAL: Train all purchasing personnel. Implement anti-kickback reporting hotline.",
    );
    db.add(
        "52.209-6",
        "Protecting the Government's Interest When Subcontracting with Contractors Debarred, Suspended, or Proposed for Debarment",
        RiskLevel::Red,
        "Prohibits subcontracting with debarred/suspended entities. Contractor liable for violations.",
        "CRITICAL: Screen all subcontractors/suppliers against SAM.gov Exclusions before award.",
    );
    db.add(
        "252.204-7012",
        "Safeguarding Covered Defense Information and Cyber Incident Reporting",
        RiskLevel::Red,
        "DFARS: Requires NIST SP 800-171 compliance and 72-hour cyber incident reporting to DoD.",
        "CRITICAL: CMMC/800-171 gap assessment required. Non-compliance risks contract termination.",
    );
    db.add(
        "252.225-7001",
        "Buy American and Balance of Payments Program",
        RiskLevel::Red,
        "DFARS: End products must be domestic. Violation triggers price preference application.",
        "HIGH RISK: Audit entire supply chain for domestic content. Foreign product use needs waiver.",
    );
    db.add(
        "252.247-7023",
        "Transportation of Supplies by Sea",
        RiskLevel::Red,
        "DFARS: Ocean shipments must use US-flag vessels. Violations carry civil penalties.",
        "HIGH RISK: Coordinate with freight forwarder on US-flag compliance before shipment.",
    );
    db.add(
        "52.249-14",
        "Excusable Delays",
        RiskLevel::Red,
        "Only certain causes excuse delay (Acts of God, government acts, etc.). Burden on contractor.",
        "HIGH RISK: Document force majeure events immediately. Issue cure/show-cause responses promptly.",
    );
    db.add(
        "52.232-17",
        "Interest",
        RiskLevel::Red,
        "Contractor owes interest on government overpayments at Treasury rate.",
        "HIGH RISK: Reconcile all interim payments promptly to avoid accruing interest liability.",
    );
    db.add(
        "52.215-14",
        "Integrity of Unit Prices",
        RiskLevel::Red,
        "Prohibits spreading costs across line items (unbalanced bidding). Can trigger contract action.",
        "CRITICAL: Review pricing to ensure no unbalanced spread before submission.",
    );
    db.add(
        "52.203-3",
        "Gratuities",
        RiskLevel::Red,
        "Government may terminate contract if contractor offered gratuities to influence award or oversight.",
        "CRITICAL: Document all government employee contacts. No gifts, meals, or entertainment.",
    );
    db.add(
        "52.222-21",
        "Prohibition of Segregated Facilities",
        RiskLevel::Green,
        "Contractor must not maintain segregated facilities. Standard EEO compliance.",
        "Standard compliance. Ensure posted notices are current.",
    );
    db.add(
        "52.204-7",
        "System for Award Management",
        RiskLevel::Green,
        "Contractor must be registered in SAM.gov and maintain active registration.",
        "Verify SAM registration is active before and throughout performance.",
    );
    db.add(
        "52.232-33",
        "Payment by Electronic Funds Transfer — System for Award Management",
        RiskLevel::Green,
        "Payment made via EFT to the bank account registered in SAM.gov.",
        "Keep SAM.gov banking information current to avoid payment delays.",
    );
    db.add(
        "52.203-17",
        "Contractor Employee Whistleblower Rights and Requirement to Inform Employees of Whistleblower Rights",
        RiskLevel::Green,
        "Requires contractor to inform employees of whistleblower protections under 41 U.S.C. § 4712.",
        "Post notice and include in employee onboarding materials.",
    );
    db.add(
        "52.222-36",
        "Equal Opportunity for Workers with Disabilities",
        RiskLevel::Green,
        "Affirmative action obligations for contractors with contracts over $15K.",
        "Standard compliance. Ensure ADAAA-compliant hiring practices.",
    );
    db.add(
        "52.204-13",
        "System for Award Management Maintenance",
        RiskLevel::Green,
        "Requires maintaining accurate SAM.gov registration throughout contract performance.",
        "Set a calendar reminder to renew SAM registration 60 days before expiration.",
    );
    db.add(
        "52.232-40",
        "Providing Accelerated Payments to Small Business Subcontractors",
        RiskLevel::Green,
        "Prime must accelerate payments to small business subcontractors to the extent practicable.",
        "Favorable for small business subs. Track subcontractor payment dates.",
    );
    db.add(
        "52.219-8",
        "Utilization of Small Business Concerns",
        RiskLevel::Yellow,
        "Prime must use small business concerns to the maximum practicable extent.",
        "Document outreach to small business subs. Maintain contact records.",
    );
    db.add(
        "52.222-35",
        "Equal Opportunity for Veterans",
        RiskLevel::Yellow,
        "Affirmative action and reporting obligations for veterans under VEVRAA for contracts over $150K.",
        "File VETS-4212 report annually. Maintain written VEVRAA AAP.",
    );
    db.add(
        "52.222-37",
        "Employment Reports on Veterans",
        RiskLevel::Yellow,
        "Annual VETS-4212 filing required for contracts over $150K.",
        "File by September 30 each year. Track hiring of protected veterans.",
    );
    db.add(
        "52.204-4",
        "Printed or Copied Double-Sided on Postconsumer Fiber Content Paper",
        RiskLevel::Yellow,
        "Requires use of recycled-content paper for documents delivered under the contract.",
        "Minor but enforceable. Source compliant paper before performance.",
    );
    db.add(
        "52.227-2",
        "Notice and Assistance Regarding Patent and Copyright Infringement",
        RiskLevel::Yellow,
        "Contractor must report and assist with any patent/copyright infringement claims.",
        "Review software licenses and third-party IP in deliverables.",
    );
    db.add(
        "52.247-64",
        "Preference for Privately Owned U.S.-Flag Commercial Vessels",
        RiskLevel::Yellow,
        "Ocean shipments of at least 50% of cargo must use privately-owned US-flag vessels.",
        "Coordinate with logistics team. Obtain waiver if US-flag vessel unavailable.",
    );
    db.add(
        "52.219-28",
        "Post-Award Small Business Program Rerepresentation",
        RiskLevel::Yellow,
        "Contractor must rerepresent size status upon contract modifications, options, or mergers.",
        "Track size recertification triggers — especially after acquisitions or novations.",
    );
    db.add(
        "52.215-15",
        "Pension Adjustments and Asset Reversions",
        RiskLevel::Yellow,
        "Government may recover pension fund assets or adjustments in cost-type contracts.",
        "Relevant for cost-type contracts. Consult DCAA before structuring pension plans.",
    );
    db.add(
        "252.204-7000",
        "Disclosure of Information",
        RiskLevel::Red,
        "DFARS: Contractor must not release unclassified DoD information without prior approval.",
        "HIGH RISK: Establish information disclosure review process before press releases or publications.",
    );
    db.add(
        "252.204-7008",
        "Compliance with Safeguarding Covered Defense Information Controls",
        RiskLevel::Red,
        "DFARS: Contractor must comply with NIST SP 800-171 safeguards for covered defense information.",
        "CRITICAL: Same as 7012 — conduct 800-171 gap assessment immediately.",
    );
    db.add(
        "252.204-7020",
        "NIST SP 800-171 DoD Assessment Requirements",
        RiskLevel::Red,
        "DFARS: Contractor must have a current NIST SP 800-171 DoD Assessment on record in SPRS.",
        "CRITICAL: Complete self-assessment and upload to SPRS before contract award.",
    );
    db.add(
        "252.211-7003",
        "Item Unique Identification and Valuation",
        RiskLevel::Red,
        "DFARS: Requires marking and reporting of Government-furnished property and deliverables with IUID.",
        "HIGH RISK: IUID non-compliance can block payment. Plan marking requirements in contract schedule.",
    );
    db.add(
        "252.223-7008",
        "Prohibition of Hexavalent Chromium",
        RiskLevel::Red,
        "DFARS: Prohibits hexavalent chromium in coatings, platings, or other applications in deliverables.",
        "HIGH RISK: Conduct materials review before fabrication. Document any exemption requests.",
    );
    db.add(
        "252.245-7001",
        "Tagging, Labeling, and Marking of Government-Furnished Property",
        RiskLevel::Red,
        "DFARS: Contractor responsible for proper tagging and tracking of all GFP.",
        "HIGH RISK: Establish GFP accountability system on day 1. Missing GFP triggers financial liability.",
    );
    db.add(
        "252.203-7001",
        "Prohibition on Persons Convicted of Fraud or Other Defense Contract-Related Felonies",
        RiskLevel::Red,
        "DFARS: Prohibits employment of persons convicted of defense-contract fraud on covered contracts.",
        "CRITICAL: Screen all employees with access to covered contracts against conviction records.",
    );
    db.add(
        "252.232-7010",
        "Levies on Contract Payments",
        RiskLevel::Red,
        "DFARS: IRS or other government liens may be levied directly against contract payments.",
        "HIGH RISK: Resolve any outstanding federal tax liens before contract performance.",
    );
    db.add(
        "52.212-5",
        "Contract Terms and Conditions Required to Implement Statutes or Executive Orders — Commercial Products",
        RiskLevel::Red,
        "Incorporates a long list of statutory clauses by reference. Each has its own compliance burden.",
        "CRITICAL: Review the full clause list in the contract — subparagraph checkboxes determine which apply.",
    );
    db.add(
        "52.230-2",
        "Cost Accounting Standards",
        RiskLevel::Red,
        "Full CAS coverage required for contracts over $2M (or $50M for modified coverage). Non-compliance triggers price adjustments.",
        "CRITICAL: Determine CAS coverage level before bid. Disclose CAS practices in CASB Disclosure Statement.",
    );
    assert(db@ =~= clause_table());
    proof {
        lemma_table_risks();
    }
    db
}

} // verus!
