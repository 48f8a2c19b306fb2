//! End-to-end exercise of the factory against a small in-process model of
//! the host: accounts with balances, atomic provisioning chains, and the
//! completion callback with its refund.

use std::collections::HashMap;

use generic_factory::hello::HelloContract;
use generic_factory::provision::ProvisionPlan;
use generic_factory::registry::{set_code, FactoryContract};

const CREATE_GAS: u64 = 60_000_000_000_000;
const YOCTO_PER_NEAR: u128 = 1_000_000_000_000_000_000_000_000;

fn to_yocto(near: u128) -> u128 {
    near * YOCTO_PER_NEAR
}

struct Account {
    balance: u128,
    hello: Option<HelloContract>,
}

struct Host {
    factory: FactoryContract,
    factory_balance: u128,
    accounts: HashMap<String, Account>,
}

impl Host {
    fn new(factory_balance: u128) -> Host {
        Host {
            factory: FactoryContract::default(),
            factory_balance,
            accounts: HashMap::new(),
        }
    }

    fn create_user(&mut self, name: &str, balance: u128) {
        self.accounts.insert(
            name.to_string(),
            Account {
                balance,
                hello: None,
            },
        );
    }

    fn balance_of(&self, account_id: &str) -> Option<u128> {
        self.accounts.get(account_id).map(|a| a.balance)
    }

    fn call_set_code(&mut self, caller: &str, bytes: &[u8]) -> Result<bool, String> {
        set_code(&mut self.factory, "factory", caller, bytes.to_vec()).map_err(|e| e.message())
    }

    /// One `create` invocation: the caller attaches `deposit`; a rejection
    /// reverts the whole call and the host auto-returns the deposit; an
    /// accepted request submits the chain and always settles it through the
    /// completion callback.
    fn call_create(
        &mut self,
        caller: &str,
        name: &str,
        init_function: Option<&str>,
        init_args: Option<&str>,
        deposit: u128,
    ) -> Result<bool, String> {
        let caller_account = self.accounts.get_mut(caller).expect("unknown caller");
        assert!(caller_account.balance >= deposit);
        caller_account.balance -= deposit;
        self.factory_balance += deposit;
        let result = self.factory.create(
            name.to_string(),
            init_function.map(|s| s.to_string()),
            init_args.map(|s| s.to_string()),
            "factory",
            caller,
            deposit,
            CREATE_GAS,
        );
        match result {
            Err(e) => {
                // The invocation aborts: full revert, attached value returns.
                self.factory_balance -= deposit;
                self.accounts.get_mut(caller).unwrap().balance += deposit;
                Err(e.message())
            }
            Ok(plan) => {
                // The forwarded deposit travels with the submitted chain.
                self.factory_balance -= plan.deposit;
                let success = self.run_chain(&plan);
                if !success {
                    // A failed chain's attached value returns to its sender.
                    self.factory_balance += plan.deposit;
                }
                let (ok, refund) = FactoryContract::after_create(
                    success,
                    plan.callback.account_id.clone(),
                    plan.callback.amount,
                );
                if let Some(r) = refund {
                    self.factory_balance -= r.amount;
                    self.accounts.get_mut(&r.account_id).unwrap().balance += r.amount;
                }
                Ok(ok)
            }
        }
    }

    /// Runs a provisioning chain as one atomic batch on the target account:
    /// if any step fails, nothing of the batch is committed.
    fn run_chain(&mut self, plan: &ProvisionPlan) -> bool {
        if self.accounts.contains_key(&plan.target_account_id) {
            return false;
        }
        let hello = match &plan.init_call {
            None => Some(HelloContract::default()),
            Some(ic) => {
                if ic.function == "new" {
                    parse_subject(&ic.args).map(HelloContract::new)
                } else {
                    None
                }
            }
        };
        match hello {
            None => false,
            Some(state) => {
                self.accounts.insert(
                    plan.target_account_id.clone(),
                    Account {
                        balance: plan.deposit,
                        hello: Some(state),
                    },
                );
                true
            }
        }
    }

    fn view_hello(&self, account_id: &str) -> Option<String> {
        self.accounts
            .get(account_id)
            .and_then(|a| a.hello.as_ref())
            .map(|h| h.hello())
    }
}

/// The deployed code's initializer accepts exactly one argument shape:
/// `{"subject":"<value>"}`.
fn parse_subject(args: &str) -> Option<String> {
    let prefix = "{\"subject\":\"";
    let suffix = "\"}";
    if args.starts_with(prefix) && args.ends_with(suffix) && args.len() >= prefix.len() + suffix.len() {
        Some(args[prefix.len()..args.len() - suffix.len()].to_string())
    } else {
        None
    }
}

#[test]
fn test_hello() {
    let contract = HelloContract::new("world".into());
    let res = contract.hello();
    assert_eq!(res, "Hello, world!");
}

#[test]
fn test_deploy_set_code_create_call() {
    let hello_bytes: Vec<u8> = vec![0, 97, 115, 109, 1, 0, 0, 0];
    let mut host = Host::new(to_yocto(10));
    host.create_user("user", to_yocto(10));

    // code not set, code_hash is none
    let res = host.factory.get_code_hash();
    assert!(res.is_none());

    // create should fail before set_code
    let res = host.call_create(
        "user",
        "subaccount",
        Some("new"),
        Some("{\"subject\":\"world\"}"),
        to_yocto(5),
    );
    assert!(!res.is_ok());
    assert!(format!("{:?}", res).contains("code not set, call set_code first"));

    // set_code by not current_account_id fails
    let res = host.call_set_code("user", &hello_bytes);
    assert!(!res.is_ok());

    // set_code by current_account_id succeeds
    let res = host.call_set_code("factory", &hello_bytes);
    assert!(res.is_ok());
    assert_eq!(res.unwrap(), true, "expected set_code to return true");

    // set_code by current_account_id fails second time
    let res = host.call_set_code("factory", &hello_bytes);
    assert!(!res.is_ok());

    // code set, code_hash is some
    let res = host.factory.get_code_hash();
    assert!(res.is_some());

    // create by random user works
    let factory_balance_before = host.factory_balance;
    let res = host.call_create(
        "user",
        "subaccount",
        Some("new"),
        Some("{\"subject\":\"world\"}"),
        to_yocto(5),
    );
    assert!(res.is_ok());
    assert_eq!(res.unwrap(), true, "expected create to return true");
    let subaccount = host.balance_of("subaccount.factory");
    assert!(
        subaccount.unwrap() >= to_yocto(5),
        "expected all deposit to be sent to subaccount"
    );
    let factory_balance_after = host.factory_balance;
    assert!(
        factory_balance_after >= factory_balance_before,
        "expected factory balance to not decrease"
    );

    // creating again for the same account name should fail and return the money
    let factory_balance_before = host.factory_balance;
    let amount_before = host.balance_of("user").unwrap();
    let res = host.call_create(
        "user",
        "subaccount",
        Some("new"),
        Some("{\"subject\":\"world\"}"),
        to_yocto(3),
    );
    assert!(res.is_ok());
    assert_eq!(res.unwrap(), false, "expected create to return false");
    let amount_after = host.balance_of("user").unwrap();
    assert!(
        amount_after + to_yocto(1) / 100 >= amount_before,
        "expected attached deposit to be returned"
    );
    let factory_balance_after = host.factory_balance;
    assert!(
        factory_balance_after >= factory_balance_before,
        "expected factory balance to not decrease"
    );

    // create should revert if init method fails
    let factory_balance_before = host.factory_balance;
    let amount_before = host.balance_of("user").unwrap();
    let res = host.call_create(
        "user",
        "subaccount_invalid_arg",
        Some("new"),
        Some("{\"not_the_expected_arg\":\"world\"}"),
        to_yocto(3),
    );
    assert!(res.is_ok());
    assert_eq!(res.unwrap(), false, "expected create to return false");
    let amount_after = host.balance_of("user").unwrap();
    assert!(
        amount_after + to_yocto(1) / 100 >= amount_before,
        "expected attached deposit to be returned"
    );
    // check that new account is indeed not created
    let subaccount = host.balance_of("subaccount_invalid_arg.factory");
    assert!(subaccount.is_none(), "expected subaccount to not be created");
    let factory_balance_after = host.factory_balance;
    assert!(
        factory_balance_after >= factory_balance_before,
        "expected factory balance to not decrease"
    );

    // init method was called with the correct args
    let res = host.view_hello("subaccount.factory");
    assert!(res.is_some());
    assert_eq!(res.unwrap(), "Hello, world!");

    // create by random user without init params
    let res = host.call_create("user", "subaccount_without_args", None, None, to_yocto(3));
    assert!(res.is_ok());

    // init method was not called, subject is empty string
    let res = host.view_hello("subaccount_without_args.factory");
    assert!(res.is_some());
    assert_eq!(res.unwrap(), "Hello, !");
}
