use project_token::account::{AccountData, RepayableBloatBond};
use project_token::arith::Permill;
use project_token::errors::Error;
use project_token::events::{Event, Validated, ValidatedPayment};
use project_token::joy::{JoyAccount, JoyAccountId};
use project_token::ledger::{testing_config, GenesisConfig, TokenLedger};
use project_token::merkle::{hash_member, hash_pair, H256};
use project_token::token::{
    TokenAllocation, TokenData, TokenIssuanceParameters, TransferPolicyParams, WhitelistParams,
    YearlyRate,
};
use project_token::vesting::{
    VestingSchedule, VestingScheduleParams, VestingSource, MAX_VESTING_SCHEDULES,
};

type Balance = u128;
type JoyBalance = u128;
type AccountId = u64;
type MemberId = u64;
type TokenId = u64;
type BlockNumber = u64;

const DEFAULT_TOKEN_ID: TokenId = 1;
const DEFAULT_ISSUER_MEMBER_ID: MemberId = 1;
const DEFAULT_ISSUER_ACCOUNT_ID: AccountId = 1;
const FIRST_USER_MEMBER_ID: MemberId = 2;
const FIRST_USER_ACCOUNT_ID: AccountId = 2;
const SECOND_USER_MEMBER_ID: MemberId = 3;
const SECOND_USER_ACCOUNT_ID: AccountId = 3;
const JOY_EXISTENTIAL_DEPOSIT: JoyBalance = 10;
const DEFAULT_BLOAT_BOND: JoyBalance = 1_000;
const DEFAULT_INITIAL_ISSUANCE: Balance = 1_000_000;
const DEFAULT_USER_BALANCE: Balance = 1_000;
const DEFAULT_SPLIT_RATE: Permill = Permill { parts: 1_000_000 };
const MIN_REVENUE_SPLIT_DURATION: BlockNumber = 10;
const MIN_REVENUE_SPLIT_TIME_TO_START: BlockNumber = 10;
const ISSUER_BONDS: u128 = 3;

fn max_schedules_per_account() -> u32 {
    MAX_VESTING_SCHEDULES as u32
}

fn ed() -> JoyBalance {
    JOY_EXISTENTIAL_DEPOSIT
}

fn member(id: u64) -> (MemberId, AccountId) {
    (id, id)
}

fn yearly_rate(percent: u32) -> YearlyRate {
    YearlyRate(Permill::from_percent(percent))
}

fn zero_hash() -> H256 {
    [0u8; 32]
}

trait IntoJoy {
    fn into_joy(self) -> JoyAccountId;
}

impl IntoJoy for u64 {
    fn into_joy(self) -> JoyAccountId {
        JoyAccountId::Plain(self)
    }
}

impl IntoJoy for &u64 {
    fn into_joy(self) -> JoyAccountId {
        JoyAccountId::Plain(*self)
    }
}

impl IntoJoy for JoyAccountId {
    fn into_joy(self) -> JoyAccountId {
        self
    }
}

impl IntoJoy for &JoyAccountId {
    fn into_joy(self) -> JoyAccountId {
        *self
    }
}

fn module_treasury_account() -> JoyAccountId {
    TokenLedger::module_treasury_account(DEFAULT_TOKEN_ID)
}

fn usable_balance<A: IntoJoy>(ledger: &TokenLedger, who: A) -> JoyBalance {
    ledger.joy_usable_balance(who.into_joy())
}

fn joy_account<A: IntoJoy>(ledger: &TokenLedger, who: A) -> JoyAccount {
    ledger.joy_account(who.into_joy())
}

fn increase_account_balance<A: IntoJoy>(ledger: &mut TokenLedger, who: A, amount: JoyBalance) {
    ledger.increase_account_balance(who.into_joy(), amount);
}

fn make_free_balance_be<A: IntoJoy>(ledger: &mut TokenLedger, who: A, amount: JoyBalance) {
    let id = who.into_joy();
    let free = ledger.joy_account(id).free;
    if free > amount {
        ledger.slash_account_balance(id, free - amount);
    } else {
        ledger.increase_account_balance(id, amount - free);
    }
}

fn set_invitation_lock<A: IntoJoy>(ledger: &mut TokenLedger, who: A, amount: JoyBalance) {
    ledger.set_invitation_lock(who.into_joy(), amount);
}

fn set_staking_candidate_lock<A: IntoJoy>(ledger: &mut TokenLedger, who: A, amount: JoyBalance) {
    ledger.set_staking_candidate_lock(who.into_joy(), amount);
}

fn last_event(ledger: &TokenLedger) -> Event {
    ledger.events().last().expect("an event").clone()
}

fn token_info(ledger: &TokenLedger, token_id: TokenId) -> TokenData {
    ledger.token_info_by_id(token_id).expect("the token")
}

fn account_info(ledger: &TokenLedger, token_id: TokenId, member_id: MemberId) -> AccountData {
    ledger.account_info_by_token_and_member(token_id, member_id).expect("the account")
}

#[derive(Clone, Copy)]
struct GenesisConfigBuilder {
    config: GenesisConfig,
}

impl GenesisConfigBuilder {
    fn new_empty() -> Self {
        let mut config = testing_config();
        config.parameters.bloat_bond = DEFAULT_BLOAT_BOND;
        config.parameters.min_sale_duration = 1;
        config.parameters.min_revenue_split_duration = MIN_REVENUE_SPLIT_DURATION;
        config.parameters.min_revenue_split_time_to_start = MIN_REVENUE_SPLIT_TIME_TO_START;
        Self { config }
    }

    fn with_bloat_bond(mut self, bloat_bond: JoyBalance) -> Self {
        self.config.parameters.bloat_bond = bloat_bond;
        self
    }

    fn with_min_sale_duration(mut self, duration: BlockNumber) -> Self {
        self.config.parameters.min_sale_duration = duration;
        self
    }

    fn with_sale_platform_fee(mut self, fee: Permill) -> Self {
        self.config.parameters.sale_platform_fee = fee;
        self
    }

    fn build(self) -> GenesisConfig {
        self.config
    }
}

fn genesis(config: GenesisConfig) -> TokenLedger {
    let mut ledger = TokenLedger::initialize(config, JOY_EXISTENTIAL_DEPOSIT);
    for id in 1..=10u64 {
        ledger.set_member(id, id);
    }
    ledger.increase_account_balance(module_treasury_account(), ed());
    ledger
}

fn build_test_externalities_with_balances(
    config: GenesisConfig,
    balances: Vec<(AccountId, JoyBalance)>,
) -> TokenLedger {
    let mut ledger = genesis(config);
    ledger.increase_account_balance(
        JoyAccountId::Plain(DEFAULT_ISSUER_ACCOUNT_ID),
        ed() + ISSUER_BONDS * DEFAULT_BLOAT_BOND,
    );
    for (account, balance) in balances {
        ledger.increase_account_balance(JoyAccountId::Plain(account), balance);
    }
    ledger
}

fn build_test_externalities(config: GenesisConfig) -> TokenLedger {
    build_test_externalities_with_balances(config, vec![])
}

fn build_default_test_externalities() -> TokenLedger {
    build_test_externalities(GenesisConfigBuilder::new_empty().build())
}

fn generate_merkle_root_helper(collection: &[MemberId]) -> Vec<H256> {
    assert!(!collection.is_empty());
    let mut out: Vec<H256> = Vec::new();
    for e in collection.iter() {
        out.push(hash_member(*e));
    }
    let mut start: usize = 0;
    let mut last_len = out.len();
    let mut max_len = last_len >> 1;
    let mut rem = last_len % 2;
    while max_len != 0 {
        last_len = out.len();
        for i in 0..max_len {
            let node = hash_pair(&out[start + 2 * i], &out[start + 2 * i + 1]);
            out.push(node);
        }
        if rem == 1 {
            let node = hash_pair(&out[last_len - 1], &out[last_len - 1]);
            out.push(node);
        }
        let new_len: usize = out.len() - last_len;
        rem = new_len % 2;
        max_len = new_len >> 1;
        start = last_len;
    }
    out
}

fn merkle_root(collection: &[MemberId]) -> H256 {
    generate_merkle_root_helper(collection).pop().unwrap()
}

fn new_transfers(outputs: Vec<(MemberId, Balance)>) -> Vec<(MemberId, Balance)> {
    outputs
}

fn new_issuer_transfers(
    outputs: Vec<(MemberId, Balance, Option<VestingScheduleParams>)>,
) -> Vec<(MemberId, Balance, Option<VestingScheduleParams>)> {
    outputs
}

fn validated_outputs(
    outputs: Vec<(Validated, Balance, Option<VestingScheduleParams>, Option<VestingSource>)>,
) -> Vec<ValidatedPayment> {
    outputs
        .into_iter()
        .map(|(destination, amount, vesting_schedule, vesting_cleanup_candidate)| ValidatedPayment {
            destination,
            amount,
            vesting_schedule,
            vesting_cleanup_candidate,
        })
        .collect()
}

fn issuer_allocation(amount: Balance) -> Vec<(MemberId, TokenAllocation)> {
    vec![(DEFAULT_ISSUER_MEMBER_ID, TokenAllocation { amount, vesting_schedule_params: None })]
}

fn checked<F: FnOnce(&mut TokenLedger) -> Result<(), Error>>(
    ledger: &mut TokenLedger,
    call: F,
) -> Result<(), Error> {
    let state_pre = ledger.clone();
    let result = call(ledger);
    if result.is_err() {
        assert_eq!(state_pre, *ledger);
    }
    result
}

#[derive(Clone)]
struct IssueTokenFixture {
    issuer_account: AccountId,
    patronage_rate: YearlyRate,
    symbol: H256,
    transfer_policy_params: TransferPolicyParams,
    revenue_split_rate: Permill,
    initial_allocation: Vec<(MemberId, TokenAllocation)>,
}

impl IssueTokenFixture {
    fn new() -> Self {
        Self {
            issuer_account: DEFAULT_ISSUER_ACCOUNT_ID,
            patronage_rate: yearly_rate(0),
            symbol: zero_hash(),
            transfer_policy_params: TransferPolicyParams::Permissionless,
            revenue_split_rate: DEFAULT_SPLIT_RATE,
            initial_allocation: issuer_allocation(DEFAULT_INITIAL_ISSUANCE),
        }
    }
    fn with_empty_allocation(self) -> Self {
        Self { initial_allocation: vec![], ..self }
    }
    fn with_initial_supply(self, amount: Balance) -> Self {
        Self { initial_allocation: issuer_allocation(amount), ..self }
    }
    fn with_symbol(self, symbol: H256) -> Self {
        Self { symbol, ..self }
    }
    fn with_patronage_rate(self, patronage_rate: YearlyRate) -> Self {
        Self { patronage_rate, ..self }
    }
    fn with_transfer_policy_params(self, transfer_policy_params: TransferPolicyParams) -> Self {
        Self { transfer_policy_params, ..self }
    }
    fn with_revenue_split_rate(self, revenue_split_rate: Permill) -> Self {
        Self { revenue_split_rate, ..self }
    }
    fn with_initial_allocation(self, initial_allocation: Vec<(MemberId, TokenAllocation)>) -> Self {
        Self { initial_allocation, ..self }
    }
    fn params(&self) -> TokenIssuanceParameters {
        TokenIssuanceParameters {
            initial_allocation: self.initial_allocation.clone(),
            symbol: self.symbol,
            transfer_policy: self.transfer_policy_params,
            patronage_rate: self.patronage_rate,
            revenue_split_rate: self.revenue_split_rate,
            existential_deposit: 0,
        }
    }
    fn execute_call(&self, ledger: &mut TokenLedger) -> Result<(), Error> {
        checked(ledger, |l| l.issue_token(self.issuer_account, self.params()).map(|_| ()))
    }
    fn run(&self, ledger: &mut TokenLedger) {
        self.execute_call(ledger).unwrap()
    }
}

#[derive(Clone)]
struct ChangeToPermissionlessFixture {
    token_id: TokenId,
}

impl ChangeToPermissionlessFixture {
    fn new() -> Self {
        Self { token_id: DEFAULT_TOKEN_ID }
    }
    fn with_token_id(self, token_id: TokenId) -> Self {
        Self { token_id }
    }
    fn execute_call(&self, ledger: &mut TokenLedger) -> Result<(), Error> {
        checked(ledger, |l| l.change_to_permissionless(self.token_id))
    }
    fn run(&self, ledger: &mut TokenLedger) {
        self.execute_call(ledger).unwrap()
    }
}

#[derive(Clone)]
struct TransferFixture {
    sender: AccountId,
    token_id: TokenId,
    src_member_id: MemberId,
    outputs: Vec<(MemberId, Balance)>,
    metadata: Vec<u8>,
}

impl TransferFixture {
    fn new() -> Self {
        Self {
            sender: FIRST_USER_ACCOUNT_ID,
            token_id: DEFAULT_TOKEN_ID,
            src_member_id: FIRST_USER_MEMBER_ID,
            outputs: new_transfers(vec![(SECOND_USER_MEMBER_ID, DEFAULT_USER_BALANCE)]),
            metadata: b"metadata".to_vec(),
        }
    }
    fn with_sender(self, sender: AccountId) -> Self {
        Self { sender, ..self }
    }
    fn with_token_id(self, token_id: TokenId) -> Self {
        Self { token_id, ..self }
    }
    fn with_src_member_id(self, src_member_id: MemberId) -> Self {
        Self { src_member_id, ..self }
    }
    fn with_outputs(self, outputs: Vec<(MemberId, Balance)>) -> Self {
        Self { outputs, ..self }
    }
    fn with_output(self, member_id: MemberId, amount: Balance) -> Self {
        self.with_outputs(new_transfers(vec![(member_id, amount)]))
    }
    fn with_multioutput_and_same_amount(
        self,
        first_dest: MemberId,
        second_dest: MemberId,
        amount: Balance,
    ) -> Self {
        self.with_outputs(new_transfers(vec![(first_dest, amount), (second_dest, amount)]))
    }
    fn execute_call(&self, ledger: &mut TokenLedger) -> Result<(), Error> {
        checked(ledger, |l| {
            l.transfer(
                self.sender,
                self.src_member_id,
                self.token_id,
                self.outputs.clone(),
                self.metadata.clone(),
            )
        })
    }
    fn run(&self, ledger: &mut TokenLedger) {
        self.execute_call(ledger).unwrap()
    }
}

#[derive(Clone)]
struct IssuerTransferFixture {
    bloat_bond_payer: AccountId,
    token_id: TokenId,
    src_member_id: MemberId,
    outputs: Vec<(MemberId, Balance, Option<VestingScheduleParams>)>,
    metadata: Vec<u8>,
}

impl IssuerTransferFixture {
    fn new() -> Self {
        Self {
            bloat_bond_payer: DEFAULT_ISSUER_ACCOUNT_ID,
            token_id: DEFAULT_TOKEN_ID,
            src_member_id: DEFAULT_ISSUER_MEMBER_ID,
            outputs: new_issuer_transfers(vec![(FIRST_USER_MEMBER_ID, DEFAULT_USER_BALANCE, None)]),
            metadata: b"metadata".to_vec(),
        }
    }
    fn with_bloat_bond_payer(self, bloat_bond_payer: AccountId) -> Self {
        Self { bloat_bond_payer, ..self }
    }
    fn with_token_id(self, token_id: TokenId) -> Self {
        Self { token_id, ..self }
    }
    fn with_src_member_id(self, src_member_id: MemberId) -> Self {
        Self { src_member_id, ..self }
    }
    fn with_outputs(self, outputs: Vec<(MemberId, Balance, Option<VestingScheduleParams>)>) -> Self {
        Self { outputs, ..self }
    }
    fn with_output(
        self,
        member_id: MemberId,
        amount: Balance,
        vesting: Option<VestingScheduleParams>,
    ) -> Self {
        self.with_outputs(new_issuer_transfers(vec![(member_id, amount, vesting)]))
    }
    fn execute_call(&self, ledger: &mut TokenLedger) -> Result<(), Error> {
        checked(ledger, |l| {
            l.issuer_transfer(
                self.token_id,
                self.src_member_id,
                self.bloat_bond_payer,
                self.outputs.clone(),
                self.metadata.clone(),
            )
        })
    }
    fn run(&self, ledger: &mut TokenLedger) {
        self.execute_call(ledger).unwrap()
    }
}

#[derive(Clone)]
struct TokenContext {
    empty_allocation: bool,
    first_user_balance: Option<Balance>,
    first_user_vesting: Option<VestingScheduleParams>,
    second_user_balance: Option<Balance>,
    second_user_vesting: Option<VestingScheduleParams>,
    permissioned_policy_with_members: Option<Vec<MemberId>>,
}

impl TokenContext {
    fn new() -> Self {
        Self {
            empty_allocation: false,
            first_user_balance: None,
            first_user_vesting: None,
            second_user_balance: None,
            second_user_vesting: None,
            permissioned_policy_with_members: None,
        }
    }
    fn with_first_user_balance(self, first_user_balance: Option<Balance>) -> Self {
        Self { first_user_balance, ..self }
    }
    fn with_second_user_balance(self, second_user_balance: Option<Balance>) -> Self {
        Self { second_user_balance, ..self }
    }
    fn with_first_user_vesting(self, first_user_vesting: Option<VestingScheduleParams>) -> Self {
        Self { first_user_vesting, ..self }
    }
    fn with_permissioned_policy_with_members(self, members: Option<Vec<MemberId>>) -> Self {
        Self { permissioned_policy_with_members: members, ..self }
    }
    fn build(self, ledger: &mut TokenLedger) {
        let issue_token_fixture = IssueTokenFixture::new();
        let mut allocation = vec![];
        if !self.empty_allocation {
            allocation = vec![(
                DEFAULT_ISSUER_MEMBER_ID,
                TokenAllocation { amount: DEFAULT_INITIAL_ISSUANCE, vesting_schedule_params: None },
            )];
            if let Some(balance) = self.first_user_balance {
                allocation.push((
                    FIRST_USER_MEMBER_ID,
                    TokenAllocation { amount: balance, vesting_schedule_params: self.first_user_vesting },
                ));
            }
            if let Some(balance) = self.second_user_balance {
                allocation.push((
                    SECOND_USER_MEMBER_ID,
                    TokenAllocation { amount: balance, vesting_schedule_params: self.second_user_vesting },
                ));
            }
        }
        let policy_params = if let Some(members) = self.permissioned_policy_with_members {
            TransferPolicyParams::Permissioned(WhitelistParams { commitment: merkle_root(members.as_slice()) })
        } else {
            TransferPolicyParams::Permissionless
        };
        issue_token_fixture
            .with_initial_allocation(allocation)
            .with_transfer_policy_params(policy_params)
            .run(ledger);
    }
    fn with_issuer_and_first_user(ledger: &mut TokenLedger) {
        Self::new().with_first_user_balance(Some(DEFAULT_USER_BALANCE)).build(ledger);
    }
    fn with_issuer_and_users(ledger: &mut TokenLedger) {
        Self::new()
            .with_first_user_balance(Some(DEFAULT_USER_BALANCE))
            .with_second_user_balance(Some(DEFAULT_USER_BALANCE))
            .build(ledger);
    }
    fn with_issuer_only(ledger: &mut TokenLedger) {
        Self::new().build(ledger);
    }
    fn with_issuer_only_permissioned(ledger: &mut TokenLedger) {
        Self::new()
            .with_permissioned_policy_with_members(Some(vec![FIRST_USER_MEMBER_ID, SECOND_USER_MEMBER_ID]))
            .build(ledger);
    }
    fn with_issuer_and_first_user_permissioned(ledger: &mut TokenLedger) {
        Self::new()
            .with_first_user_balance(Some(DEFAULT_USER_BALANCE))
            .with_permissioned_policy_with_members(Some(vec![FIRST_USER_MEMBER_ID, SECOND_USER_MEMBER_ID]))
            .build(ledger);
    }
    fn with_issuer_and_users_permissioned(ledger: &mut TokenLedger) {
        Self::new()
            .with_first_user_balance(Some(DEFAULT_USER_BALANCE))
            .with_second_user_balance(Some(DEFAULT_USER_BALANCE))
            .with_permissioned_policy_with_members(Some(vec![FIRST_USER_MEMBER_ID, SECOND_USER_MEMBER_ID]))
            .build(ledger);
    }
}

#[test]
fn transfer_fails_with_non_existing_token() {
    let mut ledger = build_default_test_externalities();
    TokenContext::with_issuer_and_first_user(&mut ledger);
    increase_account_balance(&mut ledger, FIRST_USER_ACCOUNT_ID, 2 * DEFAULT_BLOAT_BOND + ed());

    let result = TransferFixture::new()
        .with_token_id(DEFAULT_TOKEN_ID + 1)
        .execute_call(&mut ledger);

    assert_eq!(result, Err(Error::TokenDoesNotExist));
}

#[test]
fn transfer_fails_with_non_existing_source() {
    let mut ledger = build_default_test_externalities();
    TokenContext::with_issuer_and_first_user(&mut ledger);
    increase_account_balance(&mut ledger, FIRST_USER_ACCOUNT_ID, 2 * DEFAULT_BLOAT_BOND + ed());

    let result = TransferFixture::new()
        .with_sender(SECOND_USER_ACCOUNT_ID)
        .with_src_member_id(SECOND_USER_MEMBER_ID)
        .execute_call(&mut ledger);

    assert_eq!(result, Err(Error::AccountInformationDoesNotExist));
}

#[test]
fn transfer_fails_with_non_existing_dst_member() {
    let mut ledger = build_default_test_externalities();
    TokenContext::with_issuer_and_first_user(&mut ledger);
    increase_account_balance(&mut ledger, FIRST_USER_ACCOUNT_ID, 2 * DEFAULT_BLOAT_BOND + ed());

    // !! second member id should not exist on the Membership pallet
    let result = TransferFixture::new()
        .with_output(9999, DEFAULT_USER_BALANCE)
        .execute_call(&mut ledger);

    assert_eq!(result, Err(Error::TransferDestinationMemberDoesNotExist));
}

#[test]
fn transfer_fails_with_invalid_src_member_controller() {
    let mut ledger = build_default_test_externalities();
    TokenContext::with_issuer_and_first_user(&mut ledger);
    increase_account_balance(&mut ledger, FIRST_USER_ACCOUNT_ID, 2 * DEFAULT_BLOAT_BOND + ed());

    let result = TransferFixture::new()
        .with_sender(SECOND_USER_ACCOUNT_ID)
        .execute_call(&mut ledger);

    assert_eq!(result, Err(Error::OriginNotMemberController));
}

#[test]
fn permissionless_transfer_fails_with_src_having_insufficient_funds_for_bloat_bond() {
    let mut ledger = build_default_test_externalities();
    TokenContext::with_issuer_and_first_user(&mut ledger);

    let result = TransferFixture::new().execute_call(&mut ledger);

    assert_eq!(result, Err(Error::InsufficientJoyBalance));
}

#[test]
fn permissionless_transfer_ok_with_non_existing_destination() {
    let mut ledger = build_default_test_externalities();
    TokenContext::with_issuer_and_first_user(&mut ledger);
    increase_account_balance(&mut ledger, FIRST_USER_ACCOUNT_ID, DEFAULT_BLOAT_BOND + ed());

    let result = TransferFixture::new().execute_call(&mut ledger);

    assert!(result.is_ok());
}

#[test]
fn permissionless_transfer_ok_with_new_destination_created() {
    let mut ledger = build_default_test_externalities();
    TokenContext::with_issuer_and_first_user(&mut ledger);
    increase_account_balance(&mut ledger, FIRST_USER_ACCOUNT_ID, DEFAULT_BLOAT_BOND + ed());

    TransferFixture::new().run(&mut ledger);

    assert_eq!(ledger.ensure_account_data_exists(DEFAULT_TOKEN_ID, SECOND_USER_MEMBER_ID).ok(), Some(AccountData::new_with_amount_and_bond(
            DEFAULT_USER_BALANCE,
            RepayableBloatBond::new(DEFAULT_BLOAT_BOND, None)
        )));
}

#[test]
fn transfer_ok_with_new_destinations_created_and_account_number_incremented() {
    let mut ledger = build_default_test_externalities();
    TokenContext::with_issuer_and_first_user(&mut ledger);
    increase_account_balance(&mut ledger, FIRST_USER_ACCOUNT_ID, DEFAULT_BLOAT_BOND + ed());
    let accounts_number_pre = token_info(&ledger, DEFAULT_TOKEN_ID).accounts_number;

    TransferFixture::new().run(&mut ledger);

    assert_eq!(
        accounts_number_pre + 1,
        token_info(&ledger, DEFAULT_TOKEN_ID).accounts_number,
    );
}

#[test]
fn permissionless_transfer_ok_for_new_destination_with_bloat_bond_slashed_from_src() {
    let mut ledger = build_default_test_externalities();
    TokenContext::with_issuer_and_first_user(&mut ledger);
    increase_account_balance(&mut ledger, FIRST_USER_ACCOUNT_ID, DEFAULT_BLOAT_BOND + ed());

    TransferFixture::new().run(&mut ledger);

    assert_eq!(usable_balance(&ledger, FIRST_USER_ACCOUNT_ID), ed());
}

#[test]
fn permissionless_transfer_ok_for_new_destination_with_bloat_bond_transferred_to_treasury() {
    let mut ledger = build_default_test_externalities();
    TokenContext::with_issuer_and_first_user(&mut ledger);
    increase_account_balance(&mut ledger, FIRST_USER_ACCOUNT_ID, DEFAULT_BLOAT_BOND + ed());
    let treasury_balance_pre = usable_balance(&ledger, module_treasury_account());

    TransferFixture::new().run(&mut ledger);

    assert_eq!(
        usable_balance(&ledger, module_treasury_account()),
        treasury_balance_pre + DEFAULT_BLOAT_BOND,
    );
}

#[test]
fn permissionless_transfer_fails_with_source_not_having_sufficient_free_balance() {
    let mut ledger = build_default_test_externalities();
    TokenContext::new()
        .with_first_user_balance(Some(0))
        .build(&mut ledger);
    increase_account_balance(&mut ledger, FIRST_USER_ACCOUNT_ID, DEFAULT_BLOAT_BOND + ed());

    let result = TransferFixture::new().execute_call(&mut ledger);

    assert_eq!(result, Err(Error::InsufficientTransferrableBalance));
}

#[test]
fn permissionless_transfer_ok() {
    let mut ledger = build_default_test_externalities();
    TokenContext::with_issuer_and_first_user(&mut ledger);
    increase_account_balance(&mut ledger, FIRST_USER_ACCOUNT_ID, DEFAULT_BLOAT_BOND + ed());

    let result = TransferFixture::new().execute_call(&mut ledger);

    assert!(result.is_ok());
}

#[test]
fn permissionless_transfer_ok_with_event_deposit() {
    let mut ledger = build_default_test_externalities();
    TokenContext::with_issuer_and_users(&mut ledger);
    increase_account_balance(&mut ledger, FIRST_USER_ACCOUNT_ID, DEFAULT_BLOAT_BOND + ed());

    TransferFixture::new().run(&mut ledger);

    assert_eq!(last_event(&ledger), Event::TokenAmountTransferred(
        DEFAULT_TOKEN_ID,
        FIRST_USER_MEMBER_ID,
        validated_outputs(vec![(
            Validated::Existing(SECOND_USER_MEMBER_ID),
            DEFAULT_USER_BALANCE,
            None,
            None
        )]),
        b"metadata".to_vec()
    ));
}

#[test]
fn permissionless_transfer_ok_with_destination_receiving_funds() {
    let mut ledger = build_default_test_externalities();
    TokenContext::with_issuer_and_users(&mut ledger);
    increase_account_balance(&mut ledger, FIRST_USER_ACCOUNT_ID, DEFAULT_BLOAT_BOND + ed());
    let balance_pre =
        account_info(&ledger, DEFAULT_TOKEN_ID, SECOND_USER_MEMBER_ID)
            .transferrable(ledger.current_block());

    TransferFixture::new().run(&mut ledger);

    assert_eq!(
        account_info(&ledger, DEFAULT_TOKEN_ID, SECOND_USER_MEMBER_ID)
            .transferrable(ledger.current_block()),
        balance_pre + DEFAULT_USER_BALANCE
    );
}

#[test]
fn transfer_ok_without_change_in_token_supply() {
    let mut ledger = build_default_test_externalities();
    TokenContext::with_issuer_and_users(&mut ledger);
    increase_account_balance(&mut ledger, FIRST_USER_ACCOUNT_ID, DEFAULT_BLOAT_BOND + ed());
    let supply_pre = token_info(&ledger, DEFAULT_TOKEN_ID).total_supply;

    TransferFixture::new()
        .with_output(SECOND_USER_MEMBER_ID, DEFAULT_USER_BALANCE)
        .run(&mut ledger);

    assert_eq!(
        token_info(&ledger, DEFAULT_TOKEN_ID).total_supply,
        supply_pre
    );
}

#[test]
fn multiout_transfer_ok_with_non_existing_destination() {
    let mut ledger = build_default_test_externalities();
    TokenContext::with_issuer_only(&mut ledger);

    let result = TransferFixture::new()
        .with_sender(DEFAULT_ISSUER_ACCOUNT_ID)
        .with_src_member_id(DEFAULT_ISSUER_MEMBER_ID)
        .with_multioutput_and_same_amount(
            FIRST_USER_MEMBER_ID,
            SECOND_USER_MEMBER_ID,
            DEFAULT_USER_BALANCE,
        )
        .execute_call(&mut ledger);

    assert!(result.is_ok());
}

#[test]
fn multiout_transfer_fails_with_src_having_insufficient_funds_for_bloat_bond() {
    let mut ledger = build_default_test_externalities();
    TokenContext::with_issuer_only(&mut ledger);
    make_free_balance_be(&mut ledger, DEFAULT_ISSUER_ACCOUNT_ID, DEFAULT_BLOAT_BOND + ed());

    let result = TransferFixture::new()
        .with_sender(DEFAULT_ISSUER_ACCOUNT_ID)
        .with_src_member_id(DEFAULT_ISSUER_MEMBER_ID)
        .with_multioutput_and_same_amount(
            FIRST_USER_MEMBER_ID,
            SECOND_USER_MEMBER_ID,
            DEFAULT_USER_BALANCE,
        )
        .execute_call(&mut ledger);

    assert_eq!(result, Err(Error::InsufficientJoyBalance));
}

#[test]
fn multiout_transfer_ok() {
    let mut ledger = build_default_test_externalities();
    TokenContext::with_issuer_only(&mut ledger);

    let result = TransferFixture::new()
        .with_sender(DEFAULT_ISSUER_ACCOUNT_ID)
        .with_src_member_id(DEFAULT_ISSUER_MEMBER_ID)
        .with_multioutput_and_same_amount(
            FIRST_USER_MEMBER_ID,
            SECOND_USER_MEMBER_ID,
            DEFAULT_USER_BALANCE,
        )
        .execute_call(&mut ledger);

    assert!(result.is_ok());
}

#[test]
fn multiout_transfer_ok_with_event_deposit() {
    let mut ledger = build_default_test_externalities();
    TokenContext::with_issuer_and_first_user(&mut ledger);

    TransferFixture::new()
        .with_sender(DEFAULT_ISSUER_ACCOUNT_ID)
        .with_src_member_id(DEFAULT_ISSUER_MEMBER_ID)
        .with_multioutput_and_same_amount(
            FIRST_USER_MEMBER_ID,
            SECOND_USER_MEMBER_ID,
            DEFAULT_USER_BALANCE,
        )
        .run(&mut ledger);

    assert_eq!(last_event(&ledger), Event::TokenAmountTransferred(
        DEFAULT_TOKEN_ID,
        DEFAULT_ISSUER_MEMBER_ID,
        validated_outputs(vec![(
                Validated::Existing(FIRST_USER_MEMBER_ID),
                DEFAULT_USER_BALANCE,
                None,
                None
            ),
            (
                Validated::NonExisting(SECOND_USER_MEMBER_ID),
                DEFAULT_USER_BALANCE,
                None,
                None
            )]),
        b"metadata".to_vec()
    ));
}

#[test]
fn transfer_ok_and_source_left_with_zero_token_balance() {
    let mut ledger = build_default_test_externalities();
    TokenContext::with_issuer_and_first_user(&mut ledger);
    increase_account_balance(&mut ledger, FIRST_USER_ACCOUNT_ID, DEFAULT_BLOAT_BOND + ed());

    TransferFixture::new()
        .with_multioutput_and_same_amount(
            DEFAULT_ISSUER_MEMBER_ID,
            SECOND_USER_MEMBER_ID,
            DEFAULT_USER_BALANCE / 2,
        )
        .run(&mut ledger);

    assert!(
        ledger.ensure_account_data_exists(DEFAULT_TOKEN_ID, FIRST_USER_MEMBER_ID)
            .unwrap()
            .transferrable(ledger.current_block())
             == 0
    );
}

#[test]
fn multiout_transfer_fails_with_source_having_insufficient_balance() {
    let mut ledger = build_default_test_externalities();
    TokenContext::with_issuer_and_first_user(&mut ledger);

    let result = TransferFixture::new()
        .with_multioutput_and_same_amount(
            DEFAULT_ISSUER_MEMBER_ID,
            SECOND_USER_MEMBER_ID,
            DEFAULT_USER_BALANCE,
        )
        .execute_call(&mut ledger);

    assert_eq!(result, Err(Error::InsufficientTransferrableBalance));
}

#[test]
fn multiout_transfer_ok_with_same_source_and_destination() {
    let mut ledger = build_default_test_externalities();
    TokenContext::with_issuer_and_users(&mut ledger);

    let result = TransferFixture::new()
        .with_multioutput_and_same_amount(
            FIRST_USER_MEMBER_ID,
            SECOND_USER_MEMBER_ID,
            DEFAULT_USER_BALANCE / 2,
        )
        .execute_call(&mut ledger);

    assert!(result.is_ok());
}

#[test]
fn multiout_transfer_ok_with_new_destinations_created() {
    let mut ledger = build_default_test_externalities();
    TokenContext::with_issuer_only(&mut ledger);

    TransferFixture::new()
        .with_sender(DEFAULT_ISSUER_ACCOUNT_ID)
        .with_src_member_id(DEFAULT_ISSUER_MEMBER_ID)
        .with_multioutput_and_same_amount(
            FIRST_USER_MEMBER_ID,
            SECOND_USER_MEMBER_ID,
            DEFAULT_USER_BALANCE,
        )
        .run(&mut ledger);

    assert_eq!(ledger.ensure_account_data_exists(DEFAULT_TOKEN_ID, FIRST_USER_MEMBER_ID).ok(), Some(AccountData::new_with_amount_and_bond(
            DEFAULT_USER_BALANCE,
            RepayableBloatBond::new(DEFAULT_BLOAT_BOND, None)
        )));
    assert_eq!(ledger.ensure_account_data_exists(DEFAULT_TOKEN_ID, SECOND_USER_MEMBER_ID).ok(), Some(AccountData::new_with_amount_and_bond(
            DEFAULT_USER_BALANCE,
            RepayableBloatBond::new(DEFAULT_BLOAT_BOND, None)
        )));
}

#[test]
fn multiout_transfer_ok_with_bloat_bond_for_new_destinations_slashed_from_src() {
    let mut ledger = build_default_test_externalities();
    TokenContext::with_issuer_only(&mut ledger);
    let balance_pre = usable_balance(&ledger, DEFAULT_ISSUER_ACCOUNT_ID);

    TransferFixture::new()
        .with_sender(DEFAULT_ISSUER_ACCOUNT_ID)
        .with_src_member_id(DEFAULT_ISSUER_MEMBER_ID)
        .with_multioutput_and_same_amount(
            FIRST_USER_MEMBER_ID,
            SECOND_USER_MEMBER_ID,
            DEFAULT_USER_BALANCE,
        )
        .run(&mut ledger);

    assert_eq!(
        usable_balance(&ledger, DEFAULT_ISSUER_ACCOUNT_ID),
        balance_pre - 2 * DEFAULT_BLOAT_BOND
    );
}

#[test]
fn multiout_transfer_ok_with_bloat_bond_transferred_to_treasury() {
    let mut ledger = build_default_test_externalities();
    TokenContext::with_issuer_only(&mut ledger);
    let treasury_balance_pre = usable_balance(&ledger, module_treasury_account());

    TransferFixture::new()
        .with_sender(DEFAULT_ISSUER_ACCOUNT_ID)
        .with_src_member_id(DEFAULT_ISSUER_MEMBER_ID)
        .with_multioutput_and_same_amount(
            FIRST_USER_MEMBER_ID,
            SECOND_USER_MEMBER_ID,
            DEFAULT_USER_BALANCE,
        )
        .run(&mut ledger);

    assert_eq!(
        usable_balance(&ledger, module_treasury_account()),
        treasury_balance_pre + 2 * DEFAULT_BLOAT_BOND
    );
}

#[test]
fn transfer_ok_with_same_source_and_destination() {
    let mut ledger = build_default_test_externalities();
    TokenContext::with_issuer_and_first_user(&mut ledger);
    increase_account_balance(&mut ledger, FIRST_USER_MEMBER_ID, DEFAULT_BLOAT_BOND + ed());
    let token_amount_pre =
        ledger.ensure_account_data_exists(DEFAULT_TOKEN_ID, FIRST_USER_MEMBER_ID)
            .unwrap()
            .transferrable(ledger.current_block());

    TransferFixture::new()
        .with_output(FIRST_USER_MEMBER_ID, DEFAULT_USER_BALANCE)
        .run(&mut ledger);

    let token_amount_post =
        ledger.ensure_account_data_exists(DEFAULT_TOKEN_ID, FIRST_USER_MEMBER_ID)
            .unwrap()
            .transferrable(ledger.current_block());
    assert_eq!(token_amount_pre, token_amount_post);
}

#[test]
fn permissioned_transfer_ok() {
    let mut ledger = build_default_test_externalities();
    TokenContext::with_issuer_and_users_permissioned(&mut ledger);

    let result = TransferFixture::new()
        .with_multioutput_and_same_amount(
            DEFAULT_ISSUER_MEMBER_ID,
            SECOND_USER_MEMBER_ID,
            DEFAULT_USER_BALANCE / 2,
        )
        .execute_call(&mut ledger);

    assert!(result.is_ok());
}

#[test]
fn permissioned_transfer_ok_with_event_deposit() {
    let mut ledger = build_default_test_externalities();
    TokenContext::with_issuer_and_users_permissioned(&mut ledger);

    TransferFixture::new()
        .with_output(SECOND_USER_MEMBER_ID, DEFAULT_USER_BALANCE)
        .run(&mut ledger);

    assert_eq!(last_event(&ledger), Event::TokenAmountTransferred(
        DEFAULT_TOKEN_ID,
        FIRST_USER_MEMBER_ID,
        validated_outputs(vec![(
            Validated::Existing(SECOND_USER_MEMBER_ID),
            DEFAULT_USER_BALANCE,
            None,
            None
        )]),
        b"metadata".to_vec()
    ));
}

#[test]
fn permissioned_transfer_fails_with_invalid_destination() {
    let mut ledger = build_default_test_externalities();
    TokenContext::with_issuer_and_first_user_permissioned(&mut ledger);
    increase_account_balance(&mut ledger, FIRST_USER_ACCOUNT_ID, DEFAULT_BLOAT_BOND);

    let result = TransferFixture::new()
        .with_output(SECOND_USER_MEMBER_ID, DEFAULT_USER_BALANCE)
        .execute_call(&mut ledger);

    assert_eq!(result, Err(Error::AccountInformationDoesNotExist));
}

#[test]
fn permissioned_multi_out_transfer_fails_with_invalid_destination() {
    let mut ledger = build_default_test_externalities();
    TokenContext::with_issuer_and_first_user_permissioned(&mut ledger);
    increase_account_balance(&mut ledger, FIRST_USER_ACCOUNT_ID, DEFAULT_BLOAT_BOND);

    let result = TransferFixture::new()
        .with_multioutput_and_same_amount(
            DEFAULT_ISSUER_MEMBER_ID,
            SECOND_USER_MEMBER_ID,
            DEFAULT_USER_BALANCE / 2,
        )
        .execute_call(&mut ledger);

    assert_eq!(result, Err(Error::AccountInformationDoesNotExist));
}

#[test]
fn permissioned_multi_out_transfer_fails_with_insufficient_token_tranferrable_balance() {
    let mut ledger = build_default_test_externalities();
    TokenContext::with_issuer_and_first_user_permissioned(&mut ledger);
    increase_account_balance(&mut ledger, FIRST_USER_ACCOUNT_ID, DEFAULT_BLOAT_BOND);

    let result = TransferFixture::new()
        .with_multioutput_and_same_amount(
            DEFAULT_ISSUER_MEMBER_ID,
            SECOND_USER_MEMBER_ID,
            DEFAULT_USER_BALANCE,
        )
        .execute_call(&mut ledger);

    assert_eq!(result, Err(Error::InsufficientTransferrableBalance));
}

#[test]
fn permissioned_multi_out_transfer_ok() {
    let mut ledger = build_default_test_externalities();
    TokenContext::with_issuer_and_users_permissioned(&mut ledger);
    increase_account_balance(&mut ledger, FIRST_USER_ACCOUNT_ID, DEFAULT_BLOAT_BOND);

    let result = TransferFixture::new()
        .with_multioutput_and_same_amount(
            DEFAULT_ISSUER_MEMBER_ID,
            SECOND_USER_MEMBER_ID,
            DEFAULT_USER_BALANCE / 2,
        )
        .execute_call(&mut ledger);

    assert!(result.is_ok());
}

#[test]
fn permissioned_multi_out_transfer_ok_with_event_deposit() {
    let mut ledger = build_default_test_externalities();
    TokenContext::with_issuer_and_users_permissioned(&mut ledger);
    increase_account_balance(&mut ledger, FIRST_USER_ACCOUNT_ID, DEFAULT_BLOAT_BOND);

    TransferFixture::new()
        .with_multioutput_and_same_amount(
            DEFAULT_ISSUER_MEMBER_ID,
            SECOND_USER_MEMBER_ID,
            DEFAULT_USER_BALANCE / 2,
        )
        .run(&mut ledger);

    assert_eq!(last_event(&ledger), Event::TokenAmountTransferred(
        DEFAULT_TOKEN_ID,
        FIRST_USER_MEMBER_ID,
        validated_outputs(vec![(
                Validated::Existing(DEFAULT_ISSUER_MEMBER_ID),
                DEFAULT_USER_BALANCE / 2,
                None,
                None
            ),
            (
                Validated::Existing(SECOND_USER_MEMBER_ID),
                DEFAULT_USER_BALANCE / 2,
                None,
                None
            )]),
        b"metadata".to_vec()
    ));
}

#[test]
fn transfer_fails_with_insufficient_locked_funds() {
    let mut ledger = build_default_test_externalities();
    TokenContext::with_issuer_and_first_user(&mut ledger);
    increase_account_balance(&mut ledger, FIRST_USER_ACCOUNT_ID, DEFAULT_BLOAT_BOND);
    set_invitation_lock(&mut ledger, FIRST_USER_ACCOUNT_ID, DEFAULT_BLOAT_BOND + ed() - 1);
    let transfer_fixture = TransferFixture::new().with_multioutput_and_same_amount(
        DEFAULT_ISSUER_MEMBER_ID,
        SECOND_USER_MEMBER_ID,
        DEFAULT_USER_BALANCE / 2,
    );

    let result_after_first_lock = transfer_fixture.execute_call(&mut ledger);

    assert_eq!(result_after_first_lock, Err(Error::InsufficientJoyBalance));

    // Increase balance by 1, but lock ED and those funds with another, not-allowed lock
    increase_account_balance(&mut ledger, FIRST_USER_ACCOUNT_ID, 1);
    set_staking_candidate_lock(&mut ledger, FIRST_USER_ACCOUNT_ID, ed() + 1);

    let result_after_second_lock = transfer_fixture.execute_call(&mut ledger);

    assert_eq!(result_after_second_lock, Err(Error::InsufficientJoyBalance));
}

#[test]
fn transfer_fails_with_incompatible_locked_funds() {
    let mut ledger = build_default_test_externalities();
    TokenContext::with_issuer_and_first_user(&mut ledger);
    increase_account_balance(&mut ledger, FIRST_USER_ACCOUNT_ID, DEFAULT_BLOAT_BOND);
    set_staking_candidate_lock(&mut ledger, FIRST_USER_ACCOUNT_ID, DEFAULT_BLOAT_BOND + ed() - 1);

    let result = TransferFixture::new()
        .with_multioutput_and_same_amount(
            DEFAULT_ISSUER_MEMBER_ID,
            SECOND_USER_MEMBER_ID,
            DEFAULT_USER_BALANCE / 2,
        )
        .execute_call(&mut ledger);

    assert_eq!(result, Err(Error::InsufficientJoyBalance));
}

#[test]
fn change_to_permissionless_fails_with_invalid_token_id() {
    let mut ledger = build_default_test_externalities();
    TokenContext::with_issuer_only(&mut ledger);

    let result = ChangeToPermissionlessFixture::new()
        .with_token_id(DEFAULT_TOKEN_ID + 1)
        .execute_call(&mut ledger);

    assert_eq!(result, Err(Error::TokenDoesNotExist));
}

#[test]
fn change_to_permissionless_ok_from_permissioned_state() {
    let mut ledger = build_default_test_externalities();
    TokenContext::with_issuer_only_permissioned(&mut ledger);

    let result = ChangeToPermissionlessFixture::new().execute_call(&mut ledger);

    assert!(result.is_ok());
}

#[test]
fn issuer_transfer_fails_with_non_existing_token() {
    let mut ledger = build_default_test_externalities();
    TokenContext::with_issuer_only(&mut ledger);

    let result = IssuerTransferFixture::new()
        .with_token_id(DEFAULT_TOKEN_ID + 1)
        .execute_call(&mut ledger);

    assert_eq!(result, Err(Error::TokenDoesNotExist));
}

#[test]
fn issuer_transfer_fails_with_non_existing_source() {
    let mut ledger = build_default_test_externalities();
    TokenContext::with_issuer_only(&mut ledger);

    let result = IssuerTransferFixture::new()
        .with_src_member_id(99999u64)
        .execute_call(&mut ledger);

    assert_eq!(result, Err(Error::AccountInformationDoesNotExist));
}

#[test]
fn issuer_transfer_fails_with_destination_member_id_not_existing_in_the_membership_pallet() {
    let mut ledger = build_default_test_externalities();
    TokenContext::with_issuer_only(&mut ledger);

    let result = IssuerTransferFixture::new()
        .with_outputs(new_issuer_transfers(vec![(
            9999u64,
            DEFAULT_USER_BALANCE,
            None,
        )]))
        .execute_call(&mut ledger);

    assert_eq!(result, Err(Error::TransferDestinationMemberDoesNotExist));
}

#[test]
fn issuer_transfer_fails_with_src_not_having_enough_joys_for_bloat_bond() {
    let mut ledger = build_default_test_externalities();
    TokenContext::with_issuer_only(&mut ledger);
    make_free_balance_be(&mut ledger, DEFAULT_ISSUER_ACCOUNT_ID, DEFAULT_BLOAT_BOND + ed() - 1);

    let result = IssuerTransferFixture::new().execute_call(&mut ledger);

    assert_eq!(result, Err(Error::InsufficientJoyBalance));
}

#[test]
fn issuer_permissioned_token_transfer_fails_with_dst_vesting_schedules_limit_exceeded() {
    let max_vesting_schedules_num = max_schedules_per_account();
    let vesting = VestingScheduleParams {
        blocks_before_cliff: 200,
        cliff_amount_percentage: Permill::from_percent(20),
        linear_vesting_duration: 200,
    };
    assert!(
        DEFAULT_USER_BALANCE * (max_vesting_schedules_num as u128) <= DEFAULT_INITIAL_ISSUANCE,
        "issuer balance too low"
    );
    let mut ledger = build_default_test_externalities();
    // Arrange
    TokenContext::with_issuer_and_first_user(&mut ledger);
    // Create max vesting schedules
    for _ in 0u64..max_vesting_schedules_num.into() {
        IssuerTransferFixture::new()
            .with_output(
                FIRST_USER_MEMBER_ID,
                DEFAULT_USER_BALANCE,
                Some(vesting.clone()),
            )
            .run(&mut ledger);
    }

    // Act: try to add one extra vesting schedule
    let result = IssuerTransferFixture::new()
        .with_output(
            FIRST_USER_MEMBER_ID,
            DEFAULT_USER_BALANCE,
            Some(vesting.clone()),
        )
        .execute_call(&mut ledger);

    assert_eq!(result, Err(Error::MaxVestingSchedulesPerAccountPerTokenReached));
}

#[test]
fn issuer_transfer_ok_with_token_supply_changed() {
    let mut ledger = build_default_test_externalities();
    TokenContext::with_issuer_and_first_user(&mut ledger);
    let token_supply_pre = token_info(&ledger, DEFAULT_TOKEN_ID).total_supply;

    IssuerTransferFixture::new().run(&mut ledger);

    assert_eq!(
        token_info(&ledger, DEFAULT_TOKEN_ID).total_supply,
        token_supply_pre
    );
}

#[test]
fn issuer_transfer_ok_with_src_funds_decreased() {
    let mut ledger = build_default_test_externalities();
    TokenContext::with_issuer_and_first_user(&mut ledger);
    let src_funds_pre =
        ledger.ensure_account_data_exists(DEFAULT_TOKEN_ID, DEFAULT_ISSUER_MEMBER_ID)
            .unwrap()
            .amount;

    IssuerTransferFixture::new().run(&mut ledger);

    assert_eq!(
        ledger.ensure_account_data_exists(DEFAULT_TOKEN_ID, DEFAULT_ISSUER_MEMBER_ID)
            .unwrap()
            .amount,
        src_funds_pre - DEFAULT_USER_BALANCE,
    );
}

#[test]
fn issuer_transfer_ok_with_non_existing_destination_and_account_number_increased() {
    let mut ledger = build_default_test_externalities();
    TokenContext::with_issuer_only(&mut ledger);
    let accounts_number_pre = token_info(&ledger, DEFAULT_TOKEN_ID).accounts_number;

    IssuerTransferFixture::new().run(&mut ledger);

    assert_eq!(
        token_info(&ledger, DEFAULT_TOKEN_ID).accounts_number,
        accounts_number_pre + 1u64
    );
}

#[test]
fn issuer_transfer_ok_with_bloat_bond_deposited_into_tresury() {
    let mut ledger = build_default_test_externalities();
    TokenContext::with_issuer_only(&mut ledger);
    let issuer_balance_pre = usable_balance(&ledger, DEFAULT_ISSUER_ACCOUNT_ID);
    let treasury_balance_pre = usable_balance(&ledger, module_treasury_account());

    IssuerTransferFixture::new().run(&mut ledger);

    assert_eq!(
        usable_balance(&ledger, DEFAULT_ISSUER_ACCOUNT_ID),
        issuer_balance_pre - DEFAULT_BLOAT_BOND,
        "issuer joy balance not decreased by bloat bond"
    );
    assert_eq!(
        usable_balance(&ledger, module_treasury_account()),
        treasury_balance_pre + DEFAULT_BLOAT_BOND,
        "treasury balance not increased by bloat bond"
    );
}

#[test]
fn issuer_transfer_ok_with_account_created_with_vesting() {
    let vesting = VestingScheduleParams {
        blocks_before_cliff: 100,
        cliff_amount_percentage: Permill::from_percent(10),
        linear_vesting_duration: 100,
    };
    let mut ledger = build_default_test_externalities();
    let account_data = AccountData {
        next_vesting_transfer_id: 1,
        ..AccountData::new_with_vesting_and_bond(
            VestingSource::IssuerTransfer(0),
            VestingSchedule::from_params(
                ledger.current_block(),
                DEFAULT_USER_BALANCE,
                vesting.clone(),
            ),
            RepayableBloatBond::new(DEFAULT_BLOAT_BOND, None),
        )
    };
    TokenContext::with_issuer_only(&mut ledger);

    IssuerTransferFixture::new()
        .with_outputs(new_issuer_transfers(vec![(
            FIRST_USER_MEMBER_ID,
            DEFAULT_USER_BALANCE,
            Some(vesting.clone()),
        )]))
        .run(&mut ledger);

    assert_eq!(
        ledger.ensure_account_data_exists(DEFAULT_TOKEN_ID, FIRST_USER_MEMBER_ID).unwrap(),
        account_data,
    )
}

#[test]
fn issuer_transfer_ok_with_vested_tranfer_and_existing_account() {
    let vesting = VestingScheduleParams {
        blocks_before_cliff: 100,
        cliff_amount_percentage: Permill::from_percent(10),
        linear_vesting_duration: 100,
    };
    let mut ledger = build_default_test_externalities();
    let mut account_data = AccountData {
        next_vesting_transfer_id: 1,
        ..AccountData::new_with_vesting_and_bond(
            VestingSource::IssuerTransfer(0),
            VestingSchedule::from_params(
                ledger.current_block(),
                DEFAULT_USER_BALANCE,
                vesting.clone(),
            ),
            RepayableBloatBond::new(DEFAULT_BLOAT_BOND, None),
        )
    };
    account_data.amount += DEFAULT_USER_BALANCE;
    TokenContext::with_issuer_and_first_user(&mut ledger);

    IssuerTransferFixture::new()
        .with_outputs(new_issuer_transfers(vec![(
            FIRST_USER_MEMBER_ID,
            DEFAULT_USER_BALANCE,
            Some(vesting.clone()),
        )]))
        .run(&mut ledger);

    assert_eq!(
        ledger.ensure_account_data_exists(DEFAULT_TOKEN_ID, FIRST_USER_MEMBER_ID).unwrap(),
        account_data,
    )
}

#[test]
fn issuer_multiple_permissioned_token_transfers_ok_with_vesting_cleanup_executed() {
    let max_vesting_schedules_num = max_schedules_per_account();
    let vesting = VestingScheduleParams {
        blocks_before_cliff: 200,
        cliff_amount_percentage: Permill::from_percent(20),
        linear_vesting_duration: 200,
    };
    assert!(DEFAULT_USER_BALANCE * (max_vesting_schedules_num as u128) <= DEFAULT_INITIAL_ISSUANCE);
    let mut ledger = build_default_test_externalities();
    // Arrange
    TokenContext::with_issuer_and_first_user(&mut ledger);
    // Create max vesting schedules
    for i in 0u64..max_vesting_schedules_num.into() {
        IssuerTransferFixture::new()
            .with_output(
                FIRST_USER_MEMBER_ID,
                DEFAULT_USER_BALANCE,
                Some(vesting.clone()),
            )
            .run(&mut ledger);
        let dst_acc_data =
            ledger.ensure_account_data_exists(DEFAULT_TOKEN_ID, FIRST_USER_MEMBER_ID).unwrap();
        assert_eq!(dst_acc_data.next_vesting_transfer_id, i + 1);
    }
    // Go to vesting end block
    ledger.set_block_number(1 + vesting.blocks_before_cliff + vesting.linear_vesting_duration);

    // Act
    IssuerTransferFixture::new()
        .with_output(
            FIRST_USER_MEMBER_ID,
            DEFAULT_USER_BALANCE,
            Some(vesting.clone()),
        )
        .run(&mut ledger);

    // Assert
    let dst_acc_data =
        ledger.ensure_account_data_exists(DEFAULT_TOKEN_ID, FIRST_USER_MEMBER_ID).unwrap();
    assert_eq!(
        dst_acc_data.next_vesting_transfer_id,
        1u64.saturating_add(max_vesting_schedules_num.into())
    );
    assert_eq!(
        dst_acc_data.vesting_schedules.len() as u64,
        max_vesting_schedules_num as u64
    );
    assert_eq!(last_event(&ledger), Event::TokenAmountTransferredByIssuer(
        DEFAULT_TOKEN_ID,
        DEFAULT_ISSUER_MEMBER_ID,
        validated_outputs(vec![(
            Validated::Existing(FIRST_USER_MEMBER_ID),
            DEFAULT_USER_BALANCE,
            Some(vesting),
            Some(VestingSource::IssuerTransfer(0))
        )]),
        b"metadata".to_vec()
    ));
}

#[test]
fn issuer_transfer_fails_with_insufficient_locked_funds() {
    let mut ledger = build_default_test_externalities();
    TokenContext::with_issuer_only(&mut ledger);
    make_free_balance_be(&mut ledger, DEFAULT_ISSUER_ACCOUNT_ID, DEFAULT_BLOAT_BOND + ed() - 1);
    set_invitation_lock(&mut ledger, DEFAULT_ISSUER_ACCOUNT_ID, DEFAULT_BLOAT_BOND + ed() - 1);

    let result_after_first_lock = IssuerTransferFixture::new().execute_call(&mut ledger);

    assert_eq!(result_after_first_lock, Err(Error::InsufficientJoyBalance));

    // Increase balance by 1, but lock ED and those funds with another, not-allowed lock
    increase_account_balance(&mut ledger, DEFAULT_ISSUER_ACCOUNT_ID, 1);
    set_staking_candidate_lock(&mut ledger, DEFAULT_ISSUER_ACCOUNT_ID, ed() + 1);

    let result_after_second_lock = IssuerTransferFixture::new().execute_call(&mut ledger);

    assert_eq!(result_after_second_lock, Err(Error::InsufficientJoyBalance));
}

#[test]
fn issuer_transfer_fails_with_incompatible_locked_funds() {
    let mut ledger = build_default_test_externalities();
    TokenContext::with_issuer_only(&mut ledger);
    make_free_balance_be(&mut ledger, DEFAULT_ISSUER_ACCOUNT_ID, DEFAULT_BLOAT_BOND + ed());
    set_staking_candidate_lock(&mut ledger, DEFAULT_ISSUER_ACCOUNT_ID, DEFAULT_BLOAT_BOND + ed());

    let result = IssuerTransferFixture::new().execute_call(&mut ledger);

    assert_eq!(result, Err(Error::InsufficientJoyBalance));
}

fn transfer_ok_with_invitation_locked_funds(
    locked_balance: JoyBalance,
    expected_bloat_bond_restricted_to: (Option<AccountId>, Option<AccountId>, Option<AccountId>),
) {
    let mut ledger = build_default_test_externalities();
    TokenContext::with_issuer_only(&mut ledger);
    set_invitation_lock(&mut ledger, DEFAULT_ISSUER_ACCOUNT_ID, locked_balance);

    TransferFixture::new()
        .with_sender(DEFAULT_ISSUER_ACCOUNT_ID)
        .with_src_member_id(DEFAULT_ISSUER_MEMBER_ID)
        .with_multioutput_and_same_amount(
            FIRST_USER_MEMBER_ID,
            SECOND_USER_MEMBER_ID,
            DEFAULT_USER_BALANCE / 2,
        )
        .run(&mut ledger);

    assert_eq!(
        usable_balance(&ledger, module_treasury_account()),
        3 * DEFAULT_BLOAT_BOND + ed()
    );
    assert_eq!(
        joy_account(&ledger, DEFAULT_ISSUER_ACCOUNT_ID),
    JoyAccount {
        free: ed(),
        invitation_lock: locked_balance,
        other_lock: 0,
    }
    );
    assert_eq!(
        account_info(&ledger, DEFAULT_TOKEN_ID, FIRST_USER_MEMBER_ID)
            .bloat_bond,
        RepayableBloatBond::new(DEFAULT_BLOAT_BOND, expected_bloat_bond_restricted_to.0)
    );
    assert_eq!(
        account_info(&ledger, DEFAULT_TOKEN_ID, SECOND_USER_MEMBER_ID)
            .bloat_bond,
        RepayableBloatBond::new(DEFAULT_BLOAT_BOND, expected_bloat_bond_restricted_to.1)
    );
}

#[test]
fn transfer_ok_with_invitation_locked_funds_just_ed() {
    transfer_ok_with_invitation_locked_funds(ed(), (None,None,None));
}

#[test]
fn transfer_ok_with_invitation_locked_funds_more_than_ed() {
    transfer_ok_with_invitation_locked_funds(ed() + 1 , (Some(DEFAULT_ISSUER_ACCOUNT_ID),None,None));
}

#[test]
fn transfer_ok_with_invitation_locked_funds_ed_and_bloat_bond() {
    transfer_ok_with_invitation_locked_funds(ed() + DEFAULT_BLOAT_BOND , (Some(DEFAULT_ISSUER_ACCOUNT_ID),None,None));
}

#[test]
fn transfer_ok_with_invitation_locked_funds_more_than_ed_and_bloat_bond() {
    transfer_ok_with_invitation_locked_funds(ed() + DEFAULT_BLOAT_BOND + 1, (Some(DEFAULT_ISSUER_ACCOUNT_ID), Some(DEFAULT_ISSUER_ACCOUNT_ID),None));
}

#[test]
fn transfer_ok_with_invitation_locked_funds_ed_and_twice_bloat_bond() {
    transfer_ok_with_invitation_locked_funds(ed() + DEFAULT_BLOAT_BOND * 2, (Some(DEFAULT_ISSUER_ACCOUNT_ID), Some(DEFAULT_ISSUER_ACCOUNT_ID),None));
}

#[test]
fn transfer_ok_with_invitation_locked_funds_more_than_ed_and_twice_bloat_bond() {
    transfer_ok_with_invitation_locked_funds(ed() + DEFAULT_BLOAT_BOND * 2 + 1, (Some(DEFAULT_ISSUER_ACCOUNT_ID), Some(DEFAULT_ISSUER_ACCOUNT_ID),Some(DEFAULT_ISSUER_ACCOUNT_ID)));
}

#[test]
fn transfer_ok_with_invitation_locked_funds_ed_and_trice_bloat_bond() {
    transfer_ok_with_invitation_locked_funds(ed() + DEFAULT_BLOAT_BOND * 3, (Some(DEFAULT_ISSUER_ACCOUNT_ID), Some(DEFAULT_ISSUER_ACCOUNT_ID),Some(DEFAULT_ISSUER_ACCOUNT_ID)));
}

fn issuer_permissioned_token_transfer_fails_with_source_not_having_enough_tokens(
    either_issuer_only_or_issuer_with_first_user_permissioned: fn(&mut TokenLedger),
) {
    let mut ledger = build_default_test_externalities();
    either_issuer_only_or_issuer_with_first_user_permissioned(&mut ledger);
    let issuer_balance =
        ledger.ensure_account_data_exists(DEFAULT_TOKEN_ID, DEFAULT_ISSUER_MEMBER_ID)
            .unwrap()
            .amount;

    let result = IssuerTransferFixture::new()
        .with_outputs(new_issuer_transfers(vec![(
            FIRST_USER_MEMBER_ID,
            issuer_balance + 1,
            None,
        )]))
        .execute_call(&mut ledger);

    assert_eq!(result, Err(Error::InsufficientTransferrableBalance));
}

#[test]
fn issuer_permissioned_token_transfer_fails_with_source_not_having_enough_tokens_given_only_issuer_in_permissioned_mode() {
    issuer_permissioned_token_transfer_fails_with_source_not_having_enough_tokens(TokenContext::with_issuer_only_permissioned);
}

#[test]
fn issuer_permissioned_token_transfer_fails_with_source_not_having_enough_tokens_given_issuer_and_first_member_permissioned() {
    issuer_permissioned_token_transfer_fails_with_source_not_having_enough_tokens(TokenContext::with_issuer_and_first_user_permissioned);
}

fn issuer_transfer_ok_with_event_deposit_given_existing_user(
    vesting: Option<VestingScheduleParams>,
) {
    assert!(DEFAULT_INITIAL_ISSUANCE >= 2 * DEFAULT_USER_BALANCE);
    let mut ledger = build_default_test_externalities();
    TokenContext::with_issuer_and_first_user(&mut ledger);

    IssuerTransferFixture::new()
        .with_outputs(new_issuer_transfers(vec![(
            FIRST_USER_MEMBER_ID,
            DEFAULT_USER_BALANCE,
            vesting.clone(),
        )]))
        .run(&mut ledger);

    assert_eq!(last_event(&ledger), Event::TokenAmountTransferredByIssuer(
        DEFAULT_TOKEN_ID,
        DEFAULT_ISSUER_MEMBER_ID,
        validated_outputs(vec![(
            Validated::Existing(FIRST_USER_MEMBER_ID),
            DEFAULT_USER_BALANCE,
            vesting,
            None
        )]),
        b"metadata".to_vec()
    ));
}

#[test]
fn issuer_transfer_ok_with_event_deposit_given_existing_user_with_vesting_schedule() {
    issuer_transfer_ok_with_event_deposit_given_existing_user(Some( VestingScheduleParams { blocks_before_cliff: 100, cliff_amount_percentage: Permill::from_percent(10), linear_vesting_duration: 100, }));
}

#[test]
fn issuer_transfer_ok_with_event_deposit_given_existing_user_without_vesting_schedule() {
    issuer_transfer_ok_with_event_deposit_given_existing_user(None);
}

fn issuer_transfer_ok_with_event_deposit_given_non_existing_user(
    vesting: Option<VestingScheduleParams>,
) {
    assert!(DEFAULT_INITIAL_ISSUANCE >= 2 * DEFAULT_USER_BALANCE);
    let mut ledger = build_default_test_externalities();
    TokenContext::with_issuer_only(&mut ledger);

    IssuerTransferFixture::new()
        .with_outputs(new_issuer_transfers(vec![(
            FIRST_USER_MEMBER_ID,
            DEFAULT_USER_BALANCE,
            vesting.clone(),
        )]))
        .run(&mut ledger);

    assert_eq!(last_event(&ledger), Event::TokenAmountTransferredByIssuer(
        DEFAULT_TOKEN_ID,
        DEFAULT_ISSUER_MEMBER_ID,
        validated_outputs(vec![(
            Validated::NonExisting(FIRST_USER_MEMBER_ID),
            DEFAULT_USER_BALANCE,
            vesting,
            None
        )]),
        b"metadata".to_vec()
    ));
}

#[test]
fn issuer_transfer_ok_with_event_deposit_given_non_existing_user_with_vesting_schedule() {
    issuer_transfer_ok_with_event_deposit_given_non_existing_user(Some( VestingScheduleParams { blocks_before_cliff: 100, cliff_amount_percentage: Permill::from_percent(10), linear_vesting_duration: 100, }));
}

#[test]
fn issuer_transfer_ok_with_event_deposit_given_non_existing_user_without_vesting_schedule() {
    issuer_transfer_ok_with_event_deposit_given_non_existing_user(None);
}

fn issuer_transfer_ok_with_non_vesting_transfer(existing_destination: bool) {
    let amount = DEFAULT_USER_BALANCE
        + if existing_destination {
            DEFAULT_USER_BALANCE
        } else {
            0
        };
    let mut ledger = build_default_test_externalities();
    if existing_destination {
        TokenContext::with_issuer_and_first_user(&mut ledger)
    } else {
        TokenContext::with_issuer_only(&mut ledger)
    }

    IssuerTransferFixture::new().run(&mut ledger);

    assert_eq!(
        ledger.ensure_account_data_exists(DEFAULT_TOKEN_ID, FIRST_USER_MEMBER_ID).unwrap(),
        AccountData::new_with_amount_and_bond(
            amount,
            RepayableBloatBond::new(DEFAULT_BLOAT_BOND, None)
        )
    )
}

#[test]
fn issuer_transfer_ok_with_non_vesting_transfer_given_existing_destination() {
    issuer_transfer_ok_with_non_vesting_transfer(true);
}

#[test]
fn issuer_transfer_ok_with_non_vesting_transfer_given_non_existing_destination() {
    issuer_transfer_ok_with_non_vesting_transfer(false);
}

fn issuer_transfer_ok_with_invitation_locked_funds_with_locked_balance(
    locked_balance: Balance,
    expected_bloat_bond_restricted_to: (Option<AccountId>, Option<AccountId>, Option<AccountId>),
) {
    let mut ledger = build_default_test_externalities();
    TokenContext::with_issuer_only(&mut ledger);
    set_invitation_lock(&mut ledger, DEFAULT_ISSUER_ACCOUNT_ID, locked_balance);

    IssuerTransferFixture::new()
        .with_outputs(new_issuer_transfers(vec![
            (FIRST_USER_MEMBER_ID, DEFAULT_USER_BALANCE, None),
            (SECOND_USER_MEMBER_ID, DEFAULT_USER_BALANCE, None),
        ]))
        .run(&mut ledger);

    assert_eq!(
        usable_balance(&ledger, module_treasury_account()),
        3 * DEFAULT_BLOAT_BOND + ed()
    );
    assert_eq!(
        joy_account(&ledger, DEFAULT_ISSUER_ACCOUNT_ID),
    JoyAccount {
        free: ed(),
        invitation_lock: locked_balance,
        other_lock: 0,
    }
    );
    assert_eq!(
        account_info(&ledger, DEFAULT_TOKEN_ID, FIRST_USER_MEMBER_ID)
            .bloat_bond,
        RepayableBloatBond::new(DEFAULT_BLOAT_BOND, expected_bloat_bond_restricted_to.0)
    );
    assert_eq!(
        account_info(&ledger, DEFAULT_TOKEN_ID, SECOND_USER_MEMBER_ID)
            .bloat_bond,
        RepayableBloatBond::new(DEFAULT_BLOAT_BOND, expected_bloat_bond_restricted_to.1)
    );
}

#[test]
fn issuer_transfer_ok_with_invitation_locked_funds_with_locked_balance_just_ed() {
    issuer_transfer_ok_with_invitation_locked_funds_with_locked_balance(ed(), (None,None,None));
}

#[test]
fn issuer_transfer_ok_with_invitation_locked_funds_with_locked_balance_more_than_ed() {
    issuer_transfer_ok_with_invitation_locked_funds_with_locked_balance(ed() + 1, (Some(DEFAULT_ISSUER_ACCOUNT_ID),None,None));
}

#[test]
fn issuer_transfer_ok_with_invitation_locked_funds_with_locked_balance_ed_and_bloat_bond() {
    issuer_transfer_ok_with_invitation_locked_funds_with_locked_balance(ed() + DEFAULT_BLOAT_BOND, (Some(DEFAULT_ISSUER_ACCOUNT_ID),None,None));
}

#[test]
fn issuer_transfer_ok_with_invitation_locked_funds_with_locked_balance_more_than_ed_and_bloat_bond() {
    issuer_transfer_ok_with_invitation_locked_funds_with_locked_balance(ed() + DEFAULT_BLOAT_BOND + 1, (Some(DEFAULT_ISSUER_ACCOUNT_ID), Some(DEFAULT_ISSUER_ACCOUNT_ID),None));
}

#[test]
fn issuer_transfer_ok_with_invitation_locked_funds_with_locked_balance_ed_and_twice_bloat_bond() {
    issuer_transfer_ok_with_invitation_locked_funds_with_locked_balance(ed() + DEFAULT_BLOAT_BOND * 2, (Some(DEFAULT_ISSUER_ACCOUNT_ID), Some(DEFAULT_ISSUER_ACCOUNT_ID),None));
}

#[test]
fn issuer_transfer_ok_with_invitation_locked_funds_with_locked_balance_more_than_ed_and_twice_bloat_bond() {
    issuer_transfer_ok_with_invitation_locked_funds_with_locked_balance(ed() + DEFAULT_BLOAT_BOND * 2 + 1, (Some(DEFAULT_ISSUER_ACCOUNT_ID), Some(DEFAULT_ISSUER_ACCOUNT_ID),Some(DEFAULT_ISSUER_ACCOUNT_ID)));
}

#[test]
fn issuer_transfer_ok_with_invitation_locked_funds_with_locked_balance_ed_and_trice_bloat_bond() {
    issuer_transfer_ok_with_invitation_locked_funds_with_locked_balance(ed() + DEFAULT_BLOAT_BOND * 3, (Some(DEFAULT_ISSUER_ACCOUNT_ID), Some(DEFAULT_ISSUER_ACCOUNT_ID),Some(DEFAULT_ISSUER_ACCOUNT_ID)));
}
