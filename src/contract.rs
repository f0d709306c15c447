use vstd::prelude::*;
use vstd::string::*;

use crate::constants::{
    ADDR_PRO, ADDR_TEAM, ADDR_TREAS, BASE_URI, FREE_MINT_CAP, NOT_YET_REVEALED, PRO_PERCENT, ROYALTY_ADDRESS,
    ROYALTY_PERCENTAGE, TEAM_PERCENT, TOKEN_ID_OFFSET, TREAS_PERCENT, URI_SUFFIX,
};
use crate::decimal::{decimal, decimal_string};
use crate::error::ContractError;
use crate::table::Table;

verus! {

/// Where a token record stands: seeded with its extension only, or claimed by an owner.
pub enum TokenStatus {
    PreSeeded,
    Claimed { owner: String, token_uri: String },
}

pub enum TokenView {
    PreSeeded,
    Claimed { owner: Seq<char>, token_uri: Seq<char> },
}

impl View for TokenStatus {
    type V = TokenView;

    open spec fn view(&self) -> TokenView {
        match self {
            TokenStatus::PreSeeded => TokenView::PreSeeded,
            TokenStatus::Claimed { owner, token_uri } => TokenView::Claimed {
                owner: owner@,
                token_uri: token_uri@,
            },
        }
    }
}

/// One outbound payment of the pooled funds.
pub struct BankTransfer {
    pub to_address: String,
    pub amount: u128,
}

impl View for BankTransfer {
    type V = (Seq<char>, u128);

    open spec fn view(&self) -> (Seq<char>, u128) {
        (self.to_address@, self.amount)
    }
}

/// The abstract state of the contract.
pub struct ContractView<T> {
    pub minter: Seq<char>,
    pub team: Seq<char>,
    pub pro: Seq<char>,
    pub treas: Seq<char>,
    pub tokens: Map<Seq<char>, TokenView>,
    pub extensions: Map<Seq<char>, T>,
    pub freemint_count: u64,
    pub team_signed: bool,
    pub pro_signed: bool,
    pub treas_signed: bool,
    pub balances: Map<Seq<char>, u64>,
    pub whitelist: Map<Seq<char>, bool>,
    pub is_on_reveal: bool,
}

/// The URI that a token id resolves to once revealed.
pub open spec fn token_uri_of(id: Seq<char>) -> Seq<char> {
    BASE_URI@ + id + URI_SUFFIX@
}

/// `amount * percent / 100`, rounded down.
pub open spec fn share(amount: u128, percent: u64) -> u128 {
    (amount * percent / 100) as u128
}

impl<T> ContractView<T> {
    /// The state invariant: the free-mint counter stays within its cap, every record
    /// has an extension, and no balance exceeds the number of mints so far.
    pub open spec fn wf(self) -> bool {
        &&& self.freemint_count <= FREE_MINT_CAP
        &&& self.tokens.dom() == self.extensions.dom()
        &&& forall|k: Seq<char>| #[trigger]
            self.balances.contains_key(k) ==> self.balances[k] <= self.freemint_count
    }

    pub open spec fn is_claimed(self, id: Seq<char>) -> bool {
        self.tokens.contains_key(id) && self.tokens[id] is Claimed
    }

    pub open spec fn is_pre_seeded(self, id: Seq<char>) -> bool {
        self.tokens.contains_key(id) && self.tokens[id] is PreSeeded
    }

    pub open spec fn balance_of(self, who: Seq<char>) -> u64 {
        if self.balances.contains_key(who) {
            self.balances[who]
        } else {
            0
        }
    }

    pub open spec fn whitelisted(self, who: Seq<char>) -> bool {
        self.whitelist.contains_key(who) && self.whitelist[who]
    }

    pub open spec fn is_signer(self, who: Seq<char>) -> bool {
        who == self.team || who == self.pro || who == self.treas
    }

    pub open spec fn all_signed(self) -> bool {
        self.team_signed && self.pro_signed && self.treas_signed
    }

    /// The id that the next free mint claims.
    pub open spec fn next_token_id(self) -> Seq<char> {
        decimal((TOKEN_ID_OFFSET + self.freemint_count) as nat)
    }

    /// Every operation keeps the state invariant.
    pub proof fn lemma_add_extension_keeps_wf(self, sender: Seq<char>, id: Seq<char>, ext: T)
        requires
            self.wf(),
        ensures
            self.add_extension(sender, id, ext).0.wf(),
    {
        let a = self.add_extension(sender, id, ext).0;
        if sender == self.minter && !self.is_claimed(id) {
            assert(a.tokens.dom() =~= a.extensions.dom());
        }
    }

    /// Every other operation keeps the state invariant as well.
    pub proof fn lemma_steps_keep_wf(self, sender: Seq<char>, who: Seq<char>, flag: bool, balance: u128)
        requires
            self.wf(),
        ensures
            self.free_mint(sender, who).0.wf(),
            self.sign(sender).0.wf(),
            self.withdraw(balance).0.wf(),
            self.set_reveal(sender, flag).0.wf(),
            self.set_whitelist(sender, who, flag).0.wf(),
    {
        let m = self.free_mint(sender, who).0;
        if m != self {
            let nid = self.next_token_id();
            assert(m.tokens.dom() =~= self.tokens.dom().insert(nid));
            assert(m.tokens.dom() =~= m.extensions.dom()) by {
                assert(self.tokens.dom().insert(nid) =~= self.tokens.dom());
            }
            assert forall|k: Seq<char>| #[trigger] m.balances.contains_key(k) implies
                m.balances[k] <= m.freemint_count by {
                if k != who {
                    assert(self.balances.contains_key(k));
                }
            }
        }
    }

    /// Pre-seeds `id` with an extension; refused for a claimed id.
    pub open spec fn add_extension(self, sender: Seq<char>, id: Seq<char>, ext: T) -> (Self, Result<(), ContractError>) {
        if sender != self.minter {
            (self, Err(ContractError::NotMinter {}))
        } else if self.is_claimed(id) {
            (self, Err(ContractError::Claimed {}))
        } else {
            (
                ContractView {
                    tokens: self.tokens.insert(id, TokenView::PreSeeded),
                    extensions: self.extensions.insert(id, ext),
                    ..self
                },
                Ok(()),
            )
        }
    }

    /// Claims the next token id for `owner`, consuming one free mint.
    pub open spec fn free_mint(self, sender: Seq<char>, owner: Seq<char>) -> (Self, Result<Seq<char>, ContractError>) {
        let id = self.next_token_id();
        if sender != self.minter {
            (self, Err(ContractError::NotMinter {}))
        } else if self.freemint_count >= FREE_MINT_CAP {
            (self, Err(ContractError::FreeLimitExceeded {}))
        } else if !self.tokens.contains_key(id) {
            (self, Err(ContractError::CannotGetExtension {}))
        } else if self.is_claimed(id) {
            (self, Err(ContractError::Claimed {}))
        } else {
            (
                ContractView {
                    tokens: self.tokens.insert(id, TokenView::Claimed { owner, token_uri: token_uri_of(id) }),
                    freemint_count: (self.freemint_count + 1) as u64,
                    balances: self.balances.insert(owner, (self.balance_of(owner) + 1) as u64),
                    ..self
                },
                Ok(id),
            )
        }
    }

    /// Records the signature of one of the three parties.
    pub open spec fn sign(self, sender: Seq<char>) -> (Self, Result<(), ContractError>) {
        if !self.is_signer(sender) {
            (self, Err(ContractError::NotSigner {}))
        } else {
            (
                ContractView {
                    team_signed: self.team_signed || sender == self.team,
                    pro_signed: self.pro_signed || sender == self.pro,
                    treas_signed: self.treas_signed || sender == self.treas,
                    ..self
                },
                Ok(()),
            )
        }
    }

    /// The three payouts of a withdrawal of `balance`, in the order team, project, treasury.
    pub open spec fn payouts(self, balance: u128) -> Seq<(Seq<char>, u128)> {
        seq![
            (self.team, share(balance, TEAM_PERCENT)),
            (self.pro, share(balance, PRO_PERCENT)),
            (self.treas, share(balance, TREAS_PERCENT)),
        ]
    }

    /// Pays out `balance` once all three parties have signed, and clears the signatures.
    pub open spec fn withdraw(self, balance: u128) -> (Self, Result<Seq<(Seq<char>, u128)>, ContractError>) {
        if !self.all_signed() {
            (self, Err(ContractError::NotAllSigned {}))
        } else {
            (
                ContractView { team_signed: false, pro_signed: false, treas_signed: false, ..self },
                Ok(self.payouts(balance)),
            )
        }
    }

    pub open spec fn set_reveal(self, sender: Seq<char>, flag: bool) -> (Self, Result<(), ContractError>) {
        if sender != self.minter {
            (self, Err(ContractError::NotMinter {}))
        } else {
            (ContractView { is_on_reveal: flag, ..self }, Ok(()))
        }
    }

    pub open spec fn set_whitelist(self, sender: Seq<char>, member: Seq<char>, flag: bool) -> (Self, Result<(), ContractError>) {
        if sender != self.minter {
            (self, Err(ContractError::NotMinter {}))
        } else {
            (ContractView { whitelist: self.whitelist.insert(member, flag), ..self }, Ok(()))
        }
    }
}

/// A result carrying a string, with the string seen as its characters.
pub open spec fn string_result(r: Result<String, ContractError>) -> Result<Seq<char>, ContractError> {
    match r {
        Ok(s) => Ok(s@),
        Err(e) => Err(e),
    }
}

/// A result carrying payments, with each payment seen as its payee and amount.
pub open spec fn transfers_result(r: Result<Vec<BankTransfer>, ContractError>) -> Result<Seq<(Seq<char>, u128)>, ContractError> {
    match r {
        Ok(v) => Ok(v@.map_values(|t: BankTransfer| t@)),
        Err(e) => Err(e),
    }
}

/// The royalty quote for a sale: who is paid, and how much.
pub struct RoyaltiesInfoResponse {
    pub address: String,
    pub royalty_amount: u128,
}

/// The actions of the contract, with what each carries.
pub enum ExecuteMsg<T> {
    FreeMint { owner: String },
    Withdraw {},
    SetArtReveal { art_reveal: bool },
    Sign {},
    AddWhitelist { member: String },
    RemoveWhitelist { member: String },
    AddExtension { token_id: String, extension: T },
}

/// What a successful action hands back: nothing, the id of a minted token, or the
/// payments of a withdrawal.
pub enum Outcome {
    Done,
    Minted { token_id: String },
    Paid { transfers: Vec<BankTransfer> },
}

/// The read-only questions that the contract answers.
pub enum QueryMsg {
    RoyaltyInfo { token_id: String, sale_price: u128 },
    CheckRoyalties {},
    IsOnReveal {},
    GetTokenUri { token_id: String },
    GetBalance { owner: String },
    IsOnWhitelist { member: String },
    GetExtension { token_id: String },
}

/// The answer to each question; an extension is `None` where the token has no record.
pub enum QueryAnswer<'a, T> {
    RoyaltiesInfo { info: RoyaltiesInfoResponse },
    CheckRoyalties { royalty_payments: bool },
    IsOnReveal { is_on_reveal: bool },
    TokenUri { token_uri: String },
    Balance { balance: u64 },
    IsOnWhitelist { is_on_whitelist: bool },
    Extension { extension: Option<&'a T> },
}

/// The registry's extension state; `T` is the token extension payload.
pub struct Cw721ExtendedContract<T> {
    minter: String,
    team: String,
    pro: String,
    treas: String,
    tokens: Table<TokenStatus>,
    extensions: Table<T>,
    freemint_count: u64,
    team_signed: bool,
    pro_signed: bool,
    treas_signed: bool,
    wallet_balance: Table<u64>,
    whitelist: Table<bool>,
    is_on_reveal: bool,
}

impl<T> View for Cw721ExtendedContract<T> {
    type V = ContractView<T>;

    closed spec fn view(&self) -> ContractView<T> {
        ContractView {
            minter: self.minter@,
            team: self.team@,
            pro: self.pro@,
            treas: self.treas@,
            tokens: self.tokens@.map_values(|s: TokenStatus| s@),
            extensions: self.extensions@,
            freemint_count: self.freemint_count,
            team_signed: self.team_signed,
            pro_signed: self.pro_signed,
            treas_signed: self.treas_signed,
            balances: self.wallet_balance@,
            whitelist: self.whitelist@,
            is_on_reveal: self.is_on_reveal,
        }
    }
}

/// Relies on cosmwasm_std's `Uint128 * Decimal` with `Decimal::percent`: the product is
/// `amount * percent / 100` rounded down, computed at full width, so that it does not
/// overflow while `percent <= 100`.
#[verifier::external_body]
fn apply_percent(amount: u128, percent: u64) -> (r: u128)
    requires
        percent <= 100,
    ensures
        r == share(amount, percent),
{
    (cosmwasm_std::Uint128::new(amount) * cosmwasm_std::Decimal::percent(percent)).u128()
}

impl<T> Cw721ExtendedContract<T> {
    /// A fresh contract: no records, no mints, no signatures, nothing whitelisted, not revealed.
    pub fn new(minter: String, team: String, pro: String, treas: String) -> (r: Self)
        ensures
            r@ == (ContractView::<T> {
                minter: minter@,
                team: team@,
                pro: pro@,
                treas: treas@,
                tokens: Map::empty(),
                extensions: Map::empty(),
                freemint_count: 0,
                team_signed: false,
                pro_signed: false,
                treas_signed: false,
                balances: Map::empty(),
                whitelist: Map::empty(),
                is_on_reveal: false,
            }),
            r@.wf(),
    {
        let r = Cw721ExtendedContract {
            minter,
            team,
            pro,
            treas,
            tokens: Table::new(),
            extensions: Table::new(),
            freemint_count: 0,
            team_signed: false,
            pro_signed: false,
            treas_signed: false,
            wallet_balance: Table::new(),
            whitelist: Table::new(),
            is_on_reveal: false,
        };
        proof {
            assert(r@.tokens =~= Map::empty());
        }
        r
    }

    /// A contract whose withdrawals are signed by the three fixed party addresses.
    pub fn with_fixed_signers(minter: String) -> (r: Self)
        ensures
            r@.minter == minter@,
            r@.team == ADDR_TEAM@,
            r@.pro == ADDR_PRO@,
            r@.treas == ADDR_TREAS@,
            r@.tokens == Map::<Seq<char>, TokenView>::empty(),
            r@.extensions == Map::<Seq<char>, T>::empty(),
            r@.freemint_count == 0,
            !r@.team_signed && !r@.pro_signed && !r@.treas_signed,
            r@.balances == Map::<Seq<char>, u64>::empty(),
            r@.whitelist == Map::<Seq<char>, bool>::empty(),
            !r@.is_on_reveal,
            r@.wf(),
    {
        Self::new(minter, String::from_str(ADDR_TEAM), String::from_str(ADDR_PRO), String::from_str(ADDR_TREAS))
    }

    /// Pre-seeds `token_id` with its extension, replacing an earlier unclaimed one.
    pub fn execute_add_extension(&mut self, sender: &String, token_id: String, ext: T) -> (r: Result<(), ContractError>)
        requires
            old(self)@.wf(),
        ensures
            (final(self)@, r) == old(self)@.add_extension(sender@, token_id@, ext),
            final(self)@.wf(),
    {
        proof {
            old(self)@.lemma_add_extension_keeps_wf(sender@, token_id@, ext);
        }
        if !(*sender == self.minter) {
            return Err(ContractError::NotMinter {});
        }
        match self.tokens.get(&token_id) {
            Some(TokenStatus::Claimed { .. }) => {
                return Err(ContractError::Claimed {});
            },
            _ => {},
        }
        let ghost pre = self@;
        let key = token_id.clone();
        self.tokens.insert(token_id, TokenStatus::PreSeeded);
        self.extensions.insert(key, ext);
        proof {
            assert(self@.tokens =~= pre.tokens.insert(key@, TokenView::PreSeeded));
        }
        Ok(())
    }

    /// Claims the next free-mint token id for `owner`.
    pub fn execute_free_mint(&mut self, sender: &String, owner: String) -> (r: Result<String, ContractError>)
        requires
            old(self)@.wf(),
        ensures
            (final(self)@, string_result(r)) == old(self)@.free_mint(sender@, owner@),
            final(self)@.wf(),
    {
        proof {
            old(self)@.lemma_steps_keep_wf(sender@, owner@, false, 0);
        }
        if !(*sender == self.minter) {
            return Err(ContractError::NotMinter {});
        }
        if self.freemint_count >= FREE_MINT_CAP {
            return Err(ContractError::FreeLimitExceeded {});
        }
        let token_id = decimal_string(TOKEN_ID_OFFSET + self.freemint_count);
        match self.tokens.get(&token_id) {
            None => {
                return Err(ContractError::CannotGetExtension {});
            },
            Some(TokenStatus::Claimed { .. }) => {
                return Err(ContractError::Claimed {});
            },
            Some(TokenStatus::PreSeeded) => {},
        }
        let ghost pre = self@;
        let token_uri = String::from_str(BASE_URI).concat(token_id.as_str()).concat(URI_SUFFIX);
        let old_balance: u64 = match self.wallet_balance.get(&owner) {
            Some(b) => *b,
            None => 0,
        };
        self.wallet_balance.insert(owner.clone(), old_balance + 1);
        let ghost owner_view = owner@;
        self.tokens.insert(token_id.clone(), TokenStatus::Claimed { owner, token_uri });
        self.freemint_count = self.freemint_count + 1;
        proof {
            assert(self@.tokens =~= pre.tokens.insert(
                token_id@,
                TokenView::Claimed { owner: owner_view, token_uri: token_uri_of(token_id@) },
            ));
        }
        Ok(token_id)
    }

    /// Records that `sender`, one of the three parties, approves a withdrawal.
    pub fn execute_sign(&mut self, sender: &String) -> (r: Result<(), ContractError>)
        requires
            old(self)@.wf(),
        ensures
            (final(self)@, r) == old(self)@.sign(sender@),
            final(self)@.wf(),
    {
        proof {
            old(self)@.lemma_steps_keep_wf(sender@, sender@, false, 0);
        }
        let is_team = *sender == self.team;
        let is_pro = *sender == self.pro;
        let is_treas = *sender == self.treas;
        if !(is_team || is_pro || is_treas) {
            return Err(ContractError::NotSigner {});
        }
        if is_team {
            self.team_signed = true;
        }
        if is_pro {
            self.pro_signed = true;
        }
        if is_treas {
            self.treas_signed = true;
        }
        Ok(())
    }

    /// Splits `contract_balance`, the pooled funds, among the three parties once all
    /// have signed, and clears their signatures.
    pub fn execute_withdraw(&mut self, contract_balance: u128) -> (r: Result<Vec<BankTransfer>, ContractError>)
        requires
            old(self)@.wf(),
        ensures
            (final(self)@, transfers_result(r)) == old(self)@.withdraw(contract_balance),
            final(self)@.wf(),
    {
        proof {
            old(self)@.lemma_steps_keep_wf(Seq::empty(), Seq::empty(), false, contract_balance);
        }
        if !(self.team_signed && self.pro_signed && self.treas_signed) {
            return Err(ContractError::NotAllSigned {});
        }
        let team_portion = apply_percent(contract_balance, TEAM_PERCENT);
        let pro_portion = apply_percent(contract_balance, PRO_PERCENT);
        let treas_portion = apply_percent(contract_balance, TREAS_PERCENT);
        self.team_signed = false;
        self.pro_signed = false;
        self.treas_signed = false;
        let mut messages: Vec<BankTransfer> = Vec::new();
        messages.push(BankTransfer { to_address: self.team.clone(), amount: team_portion });
        messages.push(BankTransfer { to_address: self.pro.clone(), amount: pro_portion });
        messages.push(BankTransfer { to_address: self.treas.clone(), amount: treas_portion });
        proof {
            assert(messages@.map_values(|t: BankTransfer| t@) =~= old(self)@.payouts(contract_balance));
        }
        Ok(messages)
    }

    /// Switches token URIs between the placeholder and their real location.
    pub fn execute_set_art_reveal(&mut self, sender: &String, art_reveal: bool) -> (r: Result<(), ContractError>)
        requires
            old(self)@.wf(),
        ensures
            (final(self)@, r) == old(self)@.set_reveal(sender@, art_reveal),
            final(self)@.wf(),
    {
        proof {
            old(self)@.lemma_steps_keep_wf(sender@, sender@, art_reveal, 0);
        }
        if !(*sender == self.minter) {
            return Err(ContractError::NotMinter {});
        }
        self.is_on_reveal = art_reveal;
        Ok(())
    }

    /// Puts `member` on the whitelist.
    pub fn execute_add_whitelist(&mut self, sender: &String, member: String) -> (r: Result<(), ContractError>)
        requires
            old(self)@.wf(),
        ensures
            (final(self)@, r) == old(self)@.set_whitelist(sender@, member@, true),
            final(self)@.wf(),
    {
        proof {
            old(self)@.lemma_steps_keep_wf(sender@, member@, true, 0);
        }
        if !(*sender == self.minter) {
            return Err(ContractError::NotMinter {});
        }
        self.whitelist.insert(member, true);
        Ok(())
    }

    /// Takes `member` off the whitelist.
    pub fn execute_remove_whitelist(&mut self, sender: &String, member: String) -> (r: Result<(), ContractError>)
        requires
            old(self)@.wf(),
        ensures
            (final(self)@, r) == old(self)@.set_whitelist(sender@, member@, false),
            final(self)@.wf(),
    {
        proof {
            old(self)@.lemma_steps_keep_wf(sender@, member@, false, 0);
        }
        if !(*sender == self.minter) {
            return Err(ContractError::NotMinter {});
        }
        self.whitelist.insert(member, false);
        Ok(())
    }
    /// Dispatches one action sent by `sender`; `contract_balance` is the pooled funds,
    /// read by a withdrawal only.
    pub fn execute(&mut self, sender: &String, msg: ExecuteMsg<T>, contract_balance: u128) -> (r: Result<Outcome, ContractError>)
        requires
            old(self)@.wf(),
        ensures
            final(self)@.wf(),
            match msg {
                ExecuteMsg::FreeMint { owner } => {
                    let t = old(self)@.free_mint(sender@, owner@);
                    &&& final(self)@ == t.0
                    &&& match r {
                        Ok(Outcome::Minted { token_id }) => t.1 == Ok::<Seq<char>, ContractError>(token_id@),
                        Ok(_) => false,
                        Err(e) => t.1 == Err::<Seq<char>, ContractError>(e),
                    }
                },
                ExecuteMsg::Withdraw {} => {
                    let t = old(self)@.withdraw(contract_balance);
                    &&& final(self)@ == t.0
                    &&& match r {
                        Ok(Outcome::Paid { transfers }) => t.1 == Ok::<Seq<(Seq<char>, u128)>, ContractError>(
                            transfers@.map_values(|x: BankTransfer| x@),
                        ),
                        Ok(_) => false,
                        Err(e) => t.1 == Err::<Seq<(Seq<char>, u128)>, ContractError>(e),
                    }
                },
                ExecuteMsg::SetArtReveal { art_reveal } => done_as(
                    r,
                    final(self)@,
                    old(self)@.set_reveal(sender@, art_reveal),
                ),
                ExecuteMsg::Sign {} => done_as(r, final(self)@, old(self)@.sign(sender@)),
                ExecuteMsg::AddWhitelist { member } => done_as(
                    r,
                    final(self)@,
                    old(self)@.set_whitelist(sender@, member@, true),
                ),
                ExecuteMsg::RemoveWhitelist { member } => done_as(
                    r,
                    final(self)@,
                    old(self)@.set_whitelist(sender@, member@, false),
                ),
                ExecuteMsg::AddExtension { token_id, extension } => done_as(
                    r,
                    final(self)@,
                    old(self)@.add_extension(sender@, token_id@, extension),
                ),
            },
    {
        match msg {
            ExecuteMsg::FreeMint { owner } => match self.execute_free_mint(sender, owner) {
                Ok(token_id) => Ok(Outcome::Minted { token_id }),
                Err(e) => Err(e),
            },
            ExecuteMsg::Withdraw {} => match self.execute_withdraw(contract_balance) {
                Ok(transfers) => Ok(Outcome::Paid { transfers }),
                Err(e) => Err(e),
            },
            ExecuteMsg::SetArtReveal { art_reveal } => done(self.execute_set_art_reveal(sender, art_reveal)),
            ExecuteMsg::Sign {} => done(self.execute_sign(sender)),
            ExecuteMsg::AddWhitelist { member } => done(self.execute_add_whitelist(sender, member)),
            ExecuteMsg::RemoveWhitelist { member } => done(self.execute_remove_whitelist(sender, member)),
            ExecuteMsg::AddExtension { token_id, extension } => done(
                self.execute_add_extension(sender, token_id, extension),
            ),
        }
    }

    /// Answers one read-only question about the state.
    pub fn query(&self, msg: QueryMsg) -> (r: QueryAnswer<'_, T>)
        ensures
            match msg {
                QueryMsg::RoyaltyInfo { token_id, sale_price } => match r {
                    QueryAnswer::RoyaltiesInfo { info } => info.address@ == ROYALTY_ADDRESS@
                        && info.royalty_amount == share(sale_price, ROYALTY_PERCENTAGE),
                    _ => false,
                },
                QueryMsg::CheckRoyalties {} => r matches QueryAnswer::CheckRoyalties { royalty_payments: true },
                QueryMsg::IsOnReveal {} => match r {
                    QueryAnswer::IsOnReveal { is_on_reveal } => is_on_reveal == self@.is_on_reveal,
                    _ => false,
                },
                QueryMsg::GetTokenUri { token_id } => match r {
                    QueryAnswer::TokenUri { token_uri } => token_uri@ == (if self@.is_on_reveal {
                        token_uri_of(token_id@)
                    } else {
                        NOT_YET_REVEALED@
                    }),
                    _ => false,
                },
                QueryMsg::GetBalance { owner } => match r {
                    QueryAnswer::Balance { balance } => balance == self@.balance_of(owner@),
                    _ => false,
                },
                QueryMsg::IsOnWhitelist { member } => match r {
                    QueryAnswer::IsOnWhitelist { is_on_whitelist } => is_on_whitelist == self@.whitelisted(member@),
                    _ => false,
                },
                QueryMsg::GetExtension { token_id } => match r {
                    QueryAnswer::Extension { extension: Some(e) } => self@.extensions.contains_key(token_id@)
                        && *e == self@.extensions[token_id@],
                    QueryAnswer::Extension { extension: None } => !self@.extensions.contains_key(token_id@),
                    _ => false,
                },
            },
    {
        match msg {
            QueryMsg::RoyaltyInfo { token_id, sale_price } => QueryAnswer::RoyaltiesInfo {
                info: self.query_royalties_info(&token_id, sale_price),
            },
            QueryMsg::CheckRoyalties {} => QueryAnswer::CheckRoyalties { royalty_payments: self.check_royalties() },
            QueryMsg::IsOnReveal {} => QueryAnswer::IsOnReveal { is_on_reveal: self.query_is_on_reveal() },
            QueryMsg::GetTokenUri { token_id } => QueryAnswer::TokenUri {
                token_uri: self.query_get_token_uri(&token_id),
            },
            QueryMsg::GetBalance { owner } => QueryAnswer::Balance { balance: self.query_get_balance(&owner) },
            QueryMsg::IsOnWhitelist { member } => QueryAnswer::IsOnWhitelist {
                is_on_whitelist: self.check_is_on_whitelist(&member),
            },
            QueryMsg::GetExtension { token_id } => QueryAnswer::Extension {
                extension: self.query_get_extension(&token_id),
            },
        }
    }

    /// The royalty owed on a sale at `sale_price`: a fixed percentage, rounded down, to
    /// the fixed royalty payee, whatever the token.
    pub fn query_royalties_info(&self, _token_id: &String, sale_price: u128) -> (r: RoyaltiesInfoResponse)
        ensures
            r.address@ == ROYALTY_ADDRESS@,
            r.royalty_amount == share(sale_price, ROYALTY_PERCENTAGE),
    {
        RoyaltiesInfoResponse {
            address: String::from_str(ROYALTY_ADDRESS),
            royalty_amount: apply_percent(sale_price, ROYALTY_PERCENTAGE),
        }
    }

    /// Royalty payments are supported.
    pub fn check_royalties(&self) -> (r: bool)
        ensures
            r,
    {
        true
    }

    pub fn query_is_on_reveal(&self) -> (r: bool)
        ensures
            r == self@.is_on_reveal,
    {
        self.is_on_reveal
    }

    /// The URI of `token_id`: its real location once revealed, a placeholder before,
    /// whether or not the token is claimed.
    pub fn query_get_token_uri(&self, token_id: &String) -> (r: String)
        ensures
            r@ == (if self@.is_on_reveal {
                token_uri_of(token_id@)
            } else {
                NOT_YET_REVEALED@
            }),
    {
        if self.is_on_reveal {
            String::from_str(BASE_URI).concat(token_id.as_str()).concat(URI_SUFFIX)
        } else {
            String::from_str(NOT_YET_REVEALED)
        }
    }

    /// How many tokens were minted to `owner`.
    pub fn query_get_balance(&self, owner: &String) -> (r: u64)
        ensures
            r == self@.balance_of(owner@),
    {
        match self.wallet_balance.get(owner) {
            Some(b) => *b,
            None => 0,
        }
    }

    pub fn check_is_on_whitelist(&self, member: &String) -> (r: bool)
        ensures
            r == self@.whitelisted(member@),
    {
        match self.whitelist.get(member) {
            Some(b) => *b,
            None => false,
        }
    }

    /// The extension of `token_id`; `None` where no record exists.
    pub fn query_get_extension(&self, token_id: &String) -> (r: Option<&T>)
        ensures
            match r {
                Some(e) => self@.extensions.contains_key(token_id@) && *e == self@.extensions[token_id@],
                None => !self@.extensions.contains_key(token_id@),
            },
    {
        self.extensions.get(token_id)
    }

    /// The record of `token_id`, if any.
    pub fn token_status(&self, token_id: &String) -> (r: Option<&TokenStatus>)
        ensures
            match r {
                Some(t) => self@.tokens.contains_key(token_id@) && t@ == self@.tokens[token_id@],
                None => !self@.tokens.contains_key(token_id@),
            },
    {
        self.tokens.get(token_id)
    }

    /// How many free mints have been made.
    pub fn freemint_count(&self) -> (r: u64)
        ensures
            r == self@.freemint_count,
    {
        self.freemint_count
    }

    /// Whether the team, the project and the treasury have signed, in that order.
    pub fn signatures(&self) -> (r: (bool, bool, bool))
        ensures
            r == (self@.team_signed, self@.pro_signed, self@.treas_signed),
    {
        (self.team_signed, self.pro_signed, self.treas_signed)
    }
}

/// `r` reports, in `Outcome::Done` form, the result of transition `t`, and `post` is its state.
pub open spec fn done_as<T>(
    r: Result<Outcome, ContractError>,
    post: ContractView<T>,
    t: (ContractView<T>, Result<(), ContractError>),
) -> bool {
    &&& post == t.0
    &&& match r {
        Ok(Outcome::Done) => t.1 == Ok::<(), ContractError>(()),
        Ok(_) => false,
        Err(e) => t.1 == Err::<(), ContractError>(e),
    }
}

fn done(r: Result<(), ContractError>) -> (o: Result<Outcome, ContractError>)
    ensures
        match r {
            Ok(()) => o matches Ok(Outcome::Done),
            Err(e) => o == Err::<Outcome, ContractError>(e),
        },
{
    match r {
        Ok(()) => Ok(Outcome::Done),
        Err(e) => Err(e),
    }
}

} // verus!
