use oz_policy_builder::allowlist::{AllowedContract, AllowlistPolicy, InstallParams as AllowlistParams};
use oz_policy_builder::composite::{CompositePolicy, InstallParams as CompositeParams, PolicyReference};
use oz_policy_builder::context::{EnforceError, Signer};
use oz_policy_builder::storage::{Env, PolicyError};

fn contract(address: &str, functions: &[&str]) -> AllowedContract {
    AllowedContract {
        contract_address: address.to_string(),
        allowed_functions: functions.iter().map(|f| f.to_string()).collect(),
    }
}

fn reference(address: &str, data: &[u8]) -> PolicyReference {
    PolicyReference { policy_address: address.to_string(), install_data: data.to_vec() }
}

// ── Allowlist ────────────────────────────────────────────────────────────────

#[test]
fn allowlist_lib_test_install_and_basic_operations() {
    let mut env = Env::new();
    let policy = AllowlistPolicy;
    let params = AllowlistParams { allowed_contracts: vec![contract("CONTRACT1", &["transfer", "approve"])], allow_unknown: false };
    let result = policy.install(&mut env, "GACCOUNT", 123, params.clone());
    assert!(result.is_ok());
    let stored_params = policy.get_params(&env, "GACCOUNT", 123).unwrap();
    assert_eq!(stored_params.allow_unknown, params.allow_unknown);
    assert_eq!(stored_params.allowed_contracts.len(), 1);
}

#[test]
fn allowlist_lib_test_install_validation() {
    let mut env = Env::new();
    let policy = AllowlistPolicy;
    let result = policy.install(&mut env, "GACCOUNT", 123, AllowlistParams { allowed_contracts: vec![], allow_unknown: false });
    assert!(matches!(result, Err(PolicyError::InvalidParams)));
    let result = policy.install(&mut env, "GACCOUNT", 123, AllowlistParams { allowed_contracts: vec![], allow_unknown: true });
    assert!(result.is_ok());
}

#[test]
fn test_allowlist_check_logic() {
    let policy = AllowlistPolicy;
    let params = AllowlistParams { allowed_contracts: vec![contract("CONTRACT1", &["transfer"])], allow_unknown: false };
    assert!(policy.is_allowed(&params, "CONTRACT1", "transfer"));
    assert!(!policy.is_allowed(&params, "CONTRACT1", "approve"));
    assert!(!policy.is_allowed(&params, "CONTRACT2", "transfer"));
    let params = AllowlistParams { allowed_contracts: vec![], allow_unknown: true };
    assert!(policy.is_allowed(&params, "CONTRACT1", "transfer"));
    assert!(policy.is_allowed(&params, "CONTRACT2", "approve"));
}

#[test]
fn test_add_remove_contract() {
    let mut env = Env::new();
    let policy = AllowlistPolicy;
    policy.install(&mut env, "GACCOUNT", 123, AllowlistParams { allowed_contracts: vec![], allow_unknown: true }).unwrap();

    let result = policy.add_contract(&mut env, "GACCOUNT", 123, "CONTRACT1".to_string(), vec!["transfer".to_string()]);
    assert!(result.is_ok());
    let params = policy.get_params(&env, "GACCOUNT", 123).unwrap();
    assert_eq!(params.allowed_contracts.len(), 1);
    assert_eq!(params.allowed_contracts[0].contract_address, "CONTRACT1");

    let result = policy.remove_contract(&mut env, "GACCOUNT", 123, "CONTRACT1");
    assert!(result.is_ok());
    let params = policy.get_params(&env, "GACCOUNT", 123).unwrap();
    assert_eq!(params.allowed_contracts.len(), 0);
}

#[test]
fn test_basic_allowlist_operations() {
    let mut env = Env::new();
    let policy = AllowlistPolicy;
    let params = AllowlistParams { allowed_contracts: vec![contract("CONTRACT1", &["transfer", "approve"])], allow_unknown: false };
    let result = policy.install(&mut env, "GACCOUNT", 123, params.clone());
    assert!(result.is_ok(), "Install should succeed");

    let stored_params = policy.get_params(&env, "GACCOUNT", 123).expect("Should retrieve params");
    assert_eq!(stored_params.allow_unknown, params.allow_unknown);
    assert_eq!(stored_params.allowed_contracts.len(), 1);

    let check1 = policy.check_allowed(&env, "GACCOUNT", 123, "CONTRACT1", "transfer").expect("Check should work");
    assert!(check1, "Contract1 with func1 should be allowed");
    let check2 = policy.check_allowed(&env, "GACCOUNT", 123, "CONTRACT2", "transfer").expect("Check should work");
    assert!(!check2, "Contract2 should not be allowed");
}

#[test]
fn test_allow_unknown_flag() {
    let mut env = Env::new();
    let policy = AllowlistPolicy;
    let result = policy.install(&mut env, "GACCOUNT", 456, AllowlistParams { allowed_contracts: vec![], allow_unknown: true });
    assert!(result.is_ok(), "Install should succeed with allow_unknown = true");
    let check = policy.check_allowed(&env, "GACCOUNT", 456, "CANY", "any_function").expect("Check should work");
    assert!(check, "All contracts/functions should be allowed with allow_unknown = true");
}

#[test]
fn test_add_remove_contract_operations() {
    let mut env = Env::new();
    let policy = AllowlistPolicy;
    policy.install(&mut env, "GACCOUNT", 789, AllowlistParams { allowed_contracts: vec![], allow_unknown: true }).expect("Install should succeed");

    let result1 = policy.add_contract(&mut env, "GACCOUNT", 789, "CONTRACT1".to_string(), vec!["transfer".to_string()]);
    assert!(result1.is_ok(), "Add contract should succeed");
    let result2 = policy.add_contract(&mut env, "GACCOUNT", 789, "CONTRACT2".to_string(), vec!["approve".to_string()]);
    assert!(result2.is_ok(), "Add second contract should succeed");

    let params = policy.get_params(&env, "GACCOUNT", 789).expect("Should retrieve params");
    assert_eq!(params.allowed_contracts.len(), 2);

    let result3 = policy.remove_contract(&mut env, "GACCOUNT", 789, "CONTRACT1");
    assert!(result3.is_ok(), "Remove contract should succeed");

    let params = policy.get_params(&env, "GACCOUNT", 789).expect("Should retrieve params");
    assert_eq!(params.allowed_contracts.len(), 1);
    assert_eq!(params.allowed_contracts[0].contract_address, "CONTRACT2");

    let result4 = policy.remove_contract(&mut env, "GACCOUNT", 789, "CNOTLISTED");
    assert!(result4.is_err(), "Remove non-existent contract should fail");
    assert_eq!(result4.unwrap_err(), PolicyError::NotFound);
}

#[test]
fn test_function_specific_allowlisting() {
    let mut env = Env::new();
    let policy = AllowlistPolicy;
    let params = AllowlistParams { allowed_contracts: vec![contract("CONTRACT", &["transfer", "approve"])], allow_unknown: false };
    policy.install(&mut env, "GACCOUNT", 999, params).expect("Install should succeed");

    let check1 = policy.check_allowed(&env, "GACCOUNT", 999, "CONTRACT", "transfer").expect("Check should work");
    assert!(check1, "Allowed function 1 should pass");
    let check2 = policy.check_allowed(&env, "GACCOUNT", 999, "CONTRACT", "approve").expect("Check should work");
    assert!(check2, "Allowed function 2 should pass");
    let check3 = policy.check_allowed(&env, "GACCOUNT", 999, "CONTRACT", "mint").expect("Check should work");
    assert!(!check3, "Disallowed function should fail");
}

#[test]
fn allowlist_test_parameter_validation() {
    let mut env = Env::new();
    let policy = AllowlistPolicy;
    let result = policy.install(&mut env, "GACCOUNT", 111, AllowlistParams { allowed_contracts: vec![], allow_unknown: false });
    assert!(result.is_err(), "Empty allowlist with allow_unknown=false should fail");
    assert_eq!(result.unwrap_err(), PolicyError::InvalidParams);

    let result = policy.install(&mut env, "GACCOUNT", 111, AllowlistParams { allowed_contracts: vec![], allow_unknown: true });
    assert!(result.is_ok(), "Empty allowlist with allow_unknown=true should succeed");

    policy.uninstall(&mut env, "GACCOUNT", 111).expect("Uninstall should succeed");

    let params = AllowlistParams { allowed_contracts: vec![contract("CONTRACT", &["transfer"])], allow_unknown: false };
    let result = policy.install(&mut env, "GACCOUNT", 111, params);
    assert!(result.is_ok(), "Non-empty allowlist should succeed");
}

#[test]
fn allowlist_test_policy_trait_implementation() {
    let env = Env::new();
    let policy = AllowlistPolicy;
    let weight = policy.weight();
    assert!(weight > 0, "Policy should have positive weight");
    assert!(weight < 10, "Allowlist should have low weight");
    let result = policy.enforce(&env, 10, &Signer::SmartAccount("GACCOUNT".to_string()));
    assert_eq!(result, Err(EnforceError::Denied));
}

#[test]
fn test_empty_function_list_allows_all() {
    let mut env = Env::new();
    let policy = AllowlistPolicy;
    let params = AllowlistParams { allowed_contracts: vec![contract("CONTRACT", &[])], allow_unknown: false };
    policy.install(&mut env, "GACCOUNT", 222, params).expect("Install should succeed");
    for f in ["transfer", "approve", "mint"] {
        let check = policy.check_allowed(&env, "GACCOUNT", 222, "CONTRACT", f).expect("Check should work");
        assert!(check, "Any function should be allowed with empty function list");
    }
}

#[test]
fn adding_a_listed_contract_again_is_refused() {
    let mut env = Env::new();
    let policy = AllowlistPolicy;
    let params = AllowlistParams { allowed_contracts: vec![contract("CONTRACT", &["transfer"])], allow_unknown: false };
    policy.install(&mut env, "GACCOUNT", 1, params).unwrap();
    let again = policy.add_contract(&mut env, "GACCOUNT", 1, "CONTRACT".to_string(), vec![]);
    assert_eq!(again, Err(PolicyError::InvalidParams));
    let missing = policy.add_contract(&mut env, "GNOBODY", 1, "CONTRACT".to_string(), vec![]);
    assert_eq!(missing, Err(PolicyError::NotFound));
    assert_eq!(policy.check_allowed(&env, "GNOBODY", 1, "CONTRACT", "transfer"), Err(PolicyError::NotFound));
}

// ── Composite ────────────────────────────────────────────────────────────────

#[test]
fn composite_lib_test_install_and_basic_operations() {
    let mut env = Env::new();
    let policy = CompositePolicy;
    let params = CompositeParams { policies: vec![reference("CPOLICY1", &[1, 2, 3, 4]), reference("CPOLICY2", &[5, 6, 7, 8])] };
    assert!(policy.install(&mut env, "GACCOUNT", 123, params.clone()).is_ok());
    let stored_params = policy.get_params(&env, "GACCOUNT", 123).unwrap();
    assert_eq!(stored_params.policies.len(), 2);
    let stored_ref1 = policy.get_policy_reference(&env, "GACCOUNT", 123, 0).unwrap();
    assert_eq!(stored_ref1.policy_address, "CPOLICY1");
    let stored_ref2 = policy.get_policy_reference(&env, "GACCOUNT", 123, 1).unwrap();
    assert_eq!(stored_ref2.policy_address, "CPOLICY2");
}

#[test]
fn composite_lib_test_install_validation() {
    let mut env = Env::new();
    let policy = CompositePolicy;
    let result = policy.install(&mut env, "GACCOUNT", 123, CompositeParams { policies: vec![] });
    assert!(matches!(result, Err(PolicyError::InvalidParams)));
    let too_many: Vec<PolicyReference> = (0..6).map(|i| reference(&format!("CP{i}"), &[i as u8])).collect();
    let result = policy.install(&mut env, "GACCOUNT", 123, CompositeParams { policies: too_many });
    assert!(matches!(result, Err(PolicyError::InvalidParams)));
    let valid: Vec<PolicyReference> = (0..3).map(|i| reference(&format!("CP{i}"), &[i as u8])).collect();
    let result = policy.install(&mut env, "GACCOUNT", 123, CompositeParams { policies: valid });
    assert!(result.is_ok());
}

#[test]
fn lib_test_uninstall_cleans_up_all_storage() {
    let mut env = Env::new();
    let policy = CompositePolicy;
    let params = CompositeParams { policies: vec![reference("CP1", &[1, 2, 3]), reference("CP2", &[4, 5, 6])] };
    policy.install(&mut env, "GACCOUNT", 123, params).unwrap();
    assert!(policy.get_params(&env, "GACCOUNT", 123).is_ok());
    assert!(policy.get_policy_reference(&env, "GACCOUNT", 123, 0).is_ok());
    assert!(policy.uninstall(&mut env, "GACCOUNT", 123).is_ok());
    assert!(matches!(policy.get_params(&env, "GACCOUNT", 123), Err(PolicyError::NotFound)));
    assert!(matches!(policy.get_policy_reference(&env, "GACCOUNT", 123, 0), Err(PolicyError::NotFound)));
}

#[test]
fn lib_test_policy_trait_implementation() {
    let mut env = Env::new();
    let policy = CompositePolicy;
    assert_eq!(policy.weight(), 15);
    policy.install(&mut env, "GACCOUNT", 1, CompositeParams { policies: vec![reference("CP1", &[1])] }).unwrap();
    let result = policy.enforce(&env, 1, &Signer::SmartAccount("GACCOUNT".to_string()));
    assert!(result.is_ok());
}

#[test]
fn test_basic_composite_operations() {
    let mut env = Env::new();
    let policy = CompositePolicy;
    let params = CompositeParams { policies: vec![reference("CPOLICY1", &[1, 2, 3, 4]), reference("CPOLICY2", &[5, 6, 7, 8])] };
    let result = policy.install(&mut env, "GACCOUNT", 123, params.clone());
    assert!(result.is_ok(), "Install should succeed");

    let stored_params = policy.get_params(&env, "GACCOUNT", 123).expect("Should retrieve params");
    assert_eq!(stored_params.policies.len(), 2);

    let stored_ref1 = policy.get_policy_reference(&env, "GACCOUNT", 123, 0).expect("Should get policy reference 0");
    assert_eq!(stored_ref1.policy_address, "CPOLICY1");
    assert_eq!(stored_ref1.install_data, vec![1, 2, 3, 4]);

    let stored_ref2 = policy.get_policy_reference(&env, "GACCOUNT", 123, 1).expect("Should get policy reference 1");
    assert_eq!(stored_ref2.policy_address, "CPOLICY2");
    assert_eq!(stored_ref2.install_data, vec![5, 6, 7, 8]);
}

#[test]
fn composite_test_parameter_validation() {
    let mut env = Env::new();
    let policy = CompositePolicy;
    let result1 = policy.install(&mut env, "GACCOUNT", 456, CompositeParams { policies: vec![] });
    assert!(result1.is_err(), "Empty policies list should fail");
    assert_eq!(result1.unwrap_err(), PolicyError::InvalidParams);

    let too_many: Vec<PolicyReference> = (0..6).map(|i| reference(&format!("CP{i}"), &[i as u8])).collect();
    let result2 = policy.install(&mut env, "GACCOUNT", 456, CompositeParams { policies: too_many });
    assert!(result2.is_err(), "Too many policies should fail");
    assert_eq!(result2.unwrap_err(), PolicyError::InvalidParams);

    let valid: Vec<PolicyReference> = (0..5).map(|i| reference(&format!("CP{i}"), &[i as u8])).collect();
    let result3 = policy.install(&mut env, "GACCOUNT", 456, CompositeParams { policies: valid });
    assert!(result3.is_ok(), "Exactly 5 policies should succeed");
}

#[test]
fn integration_test_uninstall_cleans_up_all_storage() {
    let mut env = Env::new();
    let policy = CompositePolicy;
    let policies: Vec<PolicyReference> = (0..3).map(|i| reference(&format!("CP{i}"), &[i as u8])).collect();
    policy.install(&mut env, "GACCOUNT", 789, CompositeParams { policies }).expect("Install should succeed");

    assert!(policy.get_params(&env, "GACCOUNT", 789).is_ok(), "Should retrieve params before uninstall");
    for i in 0..3 {
        let ref_before = policy.get_policy_reference(&env, "GACCOUNT", 789, i);
        assert!(ref_before.is_ok(), "Should retrieve policy reference {} before uninstall", i);
    }

    let uninstall_result = policy.uninstall(&mut env, "GACCOUNT", 789);
    assert!(uninstall_result.is_ok(), "Uninstall should succeed");

    let params_after = policy.get_params(&env, "GACCOUNT", 789);
    assert!(params_after.is_err(), "Params should be cleared after uninstall");
    assert_eq!(params_after.unwrap_err(), PolicyError::NotFound);
    for i in 0..3 {
        let ref_after = policy.get_policy_reference(&env, "GACCOUNT", 789, i);
        assert!(ref_after.is_err(), "Policy reference {} should be cleared after uninstall", i);
        assert_eq!(ref_after.unwrap_err(), PolicyError::NotFound);
    }
}

#[test]
fn composite_test_policy_trait_implementation() {
    let env = Env::new();
    let policy = CompositePolicy;
    let weight = policy.weight();
    assert!(weight > 0, "Policy should have positive weight");
    assert!(weight >= 15, "Composite should have higher weight than individual policies");
    let result = policy.enforce(&env, 1, &Signer::Other("GSIGNER".to_string()));
    assert_eq!(result, Err(EnforceError::Denied));
}

#[test]
fn test_different_policy_counts() {
    let mut env = Env::new();
    let policy = CompositePolicy;
    for policy_count in 1usize..=5 {
        policy.uninstall(&mut env, "GACCOUNT", 999).ok();
        let policies: Vec<PolicyReference> = (0..policy_count).map(|i| reference(&format!("CP{i}"), &[i as u8])).collect();
        let result = policy.install(&mut env, "GACCOUNT", 999, CompositeParams { policies });
        assert!(result.is_ok(), "Install with {} policies should succeed", policy_count);
        let stored_params = policy.get_params(&env, "GACCOUNT", 999).expect("Should retrieve params");
        assert_eq!(stored_params.policies.len(), policy_count);
        for i in 0..policy_count {
            let stored_ref = policy.get_policy_reference(&env, "GACCOUNT", 999, i as u32).expect("Should get policy reference");
            assert_eq!(stored_ref.install_data, vec![i as u8]);
        }
    }
}

#[test]
fn test_storage_isolation_by_account() {
    let mut env = Env::new();
    let policy = CompositePolicy;
    policy.install(&mut env, "GACCOUNT1", 111, CompositeParams { policies: vec![reference("CPOLICY1", &[1, 2, 3])] })
        .expect("Install for account1 should succeed");
    policy.install(&mut env, "GACCOUNT2", 111, CompositeParams { policies: vec![reference("CPOLICY2", &[4, 5, 6])] })
        .expect("Install for account2 should succeed");

    let stored_ref1 = policy.get_policy_reference(&env, "GACCOUNT1", 111, 0).expect("Should get account1 policy reference");
    assert_eq!(stored_ref1.policy_address, "CPOLICY1");
    assert_eq!(stored_ref1.install_data, vec![1, 2, 3]);

    let stored_ref2 = policy.get_policy_reference(&env, "GACCOUNT2", 111, 0).expect("Should get account2 policy reference");
    assert_eq!(stored_ref2.policy_address, "CPOLICY2");
    assert_eq!(stored_ref2.install_data, vec![4, 5, 6]);
}
