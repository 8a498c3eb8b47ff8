use erc1155::{
    init, AccountId, Contract, Error, Event, Init, Input, MockConfig, Query, State, TokenMetadata,
};

fn id(n: u128) -> AccountId {
    (0, n)
}

fn zero() -> AccountId {
    (0, 0)
}

fn gm() -> Init {
    Init {
        name: "gm".to_string(),
        symbol: "GM".to_string(),
        base_uri: "https://gm.dev/{}".to_string(),
    }
}

fn init_program() -> Contract {
    init(gm(), id(42))
}

fn send(contract: &mut Contract, who: u128, input: Input) -> Result<Event, Error> {
    contract.env = MockConfig {
        sender: id(who),
        origin: id(who),
    };
    contract.handle(input)
}

fn nft() -> TokenMetadata {
    TokenMetadata {
        name: "nft".to_string(),
        description: "nft for test".to_string(),
        image_uri: "https://gm.dev/nft.png".to_string(),
        json_uri: "https://gm.dev/nft.json".to_string(),
    }
}

fn mint_batch_0123(program: &mut Contract) {
    let res = send(
        program,
        42,
        Input::MintBatch {
            to: id(42),
            token: vec![0, 1, 2, 3],
            amount: vec![1, 2, 3, 4],
        },
    );
    assert!(res.is_ok());
}

#[test]
fn init_test_init_works() {
    let program = init_program();
    assert_eq!(program.owner, id(42));
    assert_eq!(program.state(Query::Name), Ok(State::Name("gm".to_string())));
    assert_eq!(program.state(Query::Symbol), Ok(State::Symbol("GM".to_string())));
    assert_eq!(
        program.state(Query::BaseUri),
        Ok(State::BaseUri("https://gm.dev/{}".to_string()))
    );
}

#[test]
fn basic_query_works() {
    let program = init_program();
    assert_eq!(program.state(Query::Name), Ok(State::Name("gm".to_string())));
    assert_eq!(program.state(Query::Symbol), Ok(State::Symbol("GM".to_string())));
    assert_eq!(
        program.state(Query::BaseUri),
        Ok(State::BaseUri("https://gm.dev/{}".to_string()))
    );
}

#[test]
fn handle_test_mint_works() {
    let mut program = init_program();
    let expected = Event::TransferSingle {
        operator: id(42),
        from: zero(),
        to: id(42),
        token: 0,
        amount: 1,
    };
    let res = send(
        &mut program,
        42,
        Input::Mint {
            to: id(42),
            token: 0,
            amount: 1,
        },
    );
    assert_eq!(res, Ok(expected));
}

#[test]
fn handle_test_mint_twice_panics() {
    let mut program = init_program();
    let mint = || Input::Mint {
        to: id(42),
        token: 0,
        amount: 1,
    };
    assert!(send(&mut program, 42, mint()).is_ok());
    assert_eq!(send(&mut program, 42, mint()), Err(Error::DuplicateMint));
}

#[test]
fn handle_panic_test_mint_twice_panics() {
    let mut program = init_program();
    let _ = send(
        &mut program,
        42,
        Input::Mint {
            to: id(42),
            token: 0,
            amount: 1,
        },
    );
    let res = send(
        &mut program,
        42,
        Input::Mint {
            to: id(42),
            token: 0,
            amount: 1,
        },
    );
    assert!(res.is_err());
}

#[test]
fn mint_zero_panics() {
    let mut program = init_program();
    let res = send(
        &mut program,
        42,
        Input::Mint {
            to: id(42),
            token: 0,
            amount: 0,
        },
    );
    assert_eq!(res, Err(Error::ZeroAmount));
}

#[test]
fn handle_test_mint_batch_works() {
    let mut program = init_program();
    let expected = Event::TransferBatch {
        operator: id(42),
        from: zero(),
        to: id(42),
        token: vec![0, 1, 2, 3],
        amount: vec![1, 2, 3, 4],
    };
    let res = send(
        &mut program,
        42,
        Input::MintBatch {
            to: id(42),
            token: vec![0, 1, 2, 3],
            amount: vec![1, 2, 3, 4],
        },
    );
    assert_eq!(res, Ok(expected));
}

#[test]
fn handle_test_transfer_works() {
    let mut program = init_program();
    assert!(send(
        &mut program,
        42,
        Input::Mint {
            to: id(42),
            token: 0,
            amount: 1,
        },
    )
    .is_ok());
    let res = send(
        &mut program,
        42,
        Input::TransferFrom {
            from: id(42),
            to: id(1),
            token: 0,
            amount: 1,
        },
    );
    let expected = Event::TransferSingle {
        operator: id(42),
        from: id(42),
        to: id(1),
        token: 0,
        amount: 1,
    };
    assert_eq!(res, Ok(expected));
}

#[test]
fn transfer_zero_panics() {
    let mut program = init_program();
    let res = send(
        &mut program,
        42,
        Input::TransferFrom {
            from: id(42),
            to: id(1),
            token: 0,
            amount: 0,
        },
    );
    assert_eq!(res, Err(Error::ZeroAmount));
}

#[test]
fn handle_panic_test_transfer_exceeding_balance_panics() {
    let mut program = init_program();
    let res = send(
        &mut program,
        42,
        Input::TransferFrom {
            from: id(42),
            to: id(1),
            token: 0,
            amount: 1,
        },
    );
    assert_eq!(res, Err(Error::InsufficientBalance));
}

#[test]
fn handle_panic_test_transfer_from_non_owner_panics() {
    let mut program = init_program();
    assert!(send(
        &mut program,
        42,
        Input::Mint {
            to: id(42),
            token: 0,
            amount: 1,
        },
    )
    .is_ok());
    let res = send(
        &mut program,
        69,
        Input::TransferFrom {
            from: id(42),
            to: id(69),
            token: 0,
            amount: 1,
        },
    );
    assert_eq!(res, Err(Error::Unauthorized));
}

#[test]
fn handle_test_transfer_batch_works() {
    let mut program = init_program();
    mint_batch_0123(&mut program);
    let res = send(
        &mut program,
        42,
        Input::BatchTransferFrom {
            from: id(42),
            to: id(1),
            token: vec![0, 1, 2, 3],
            amount: vec![1, 2, 3, 4],
        },
    );
    let expected = Event::TransferBatch {
        operator: id(42),
        from: id(42),
        to: id(1),
        token: vec![0, 1, 2, 3],
        amount: vec![1, 2, 3, 4],
    };
    assert_eq!(res, Ok(expected));
}

#[test]
fn handle_panic_test_transfer_batch_length_mismatch_panics() {
    let mut program = init_program();
    mint_batch_0123(&mut program);
    let res = send(
        &mut program,
        42,
        Input::BatchTransferFrom {
            from: id(42),
            to: id(1),
            token: vec![0, 1, 2, 3],
            amount: vec![1, 2, 3],
        },
    );
    assert_eq!(res, Err(Error::LengthMismatch));
}

#[test]
fn transfer_batch_length_mismatch_works() {
    let mut program = init_program();
    mint_batch_0123(&mut program);
    let res = send(
        &mut program,
        42,
        Input::BatchTransferFrom {
            from: id(42),
            to: id(1),
            token: vec![0, 1, 2, 3],
            amount: vec![1, 2, 3],
        },
    );
    assert!(res.is_err());
}

#[test]
fn handle_test_burn_works() {
    let mut program = init_program();
    assert!(send(
        &mut program,
        42,
        Input::Mint {
            to: id(42),
            token: 0,
            amount: 1,
        },
    )
    .is_ok());
    let res = send(
        &mut program,
        42,
        Input::Burn {
            from: id(42),
            token: 0,
            amount: 1,
        },
    );
    let expected = Event::TransferSingle {
        operator: id(42),
        from: id(42),
        to: zero(),
        token: 0,
        amount: 1,
    };
    assert_eq!(res, Ok(expected));
}

#[test]
fn handle_test_burn_empty_panics() {
    let mut program = init(Init::default(), id(42));
    let res = send(
        &mut program,
        42,
        Input::Burn {
            from: id(42),
            token: 0,
            amount: 1,
        },
    );
    assert!(res.is_err());
}

#[test]
fn handle_panic_test_burn_empty_panics() {
    let mut program = init(Init::default(), id(42));
    let res = send(
        &mut program,
        42,
        Input::Burn {
            from: id(42),
            token: 0,
            amount: 1,
        },
    );
    assert_eq!(res, Err(Error::InsufficientBalance));
}

#[test]
fn handle_panic_test_burn_exceeding_balance_panics() {
    let mut program = init_program();
    let res = send(
        &mut program,
        42,
        Input::Burn {
            from: id(42),
            token: 0,
            amount: 1,
        },
    );
    assert_eq!(res, Err(Error::InsufficientBalance));
}

#[test]
fn burn_zero_panics() {
    let mut program = init_program();
    let res = send(
        &mut program,
        42,
        Input::Burn {
            from: id(42),
            token: 0,
            amount: 0,
        },
    );
    assert_eq!(res, Err(Error::ZeroAmount));
}

#[test]
fn handle_test_burn_batch_works() {
    let mut program = init_program();
    mint_batch_0123(&mut program);
    let res = send(
        &mut program,
        42,
        Input::BurnBatch {
            from: id(42),
            token: vec![0, 1, 2, 3],
            amount: vec![1, 1, 1, 1],
        },
    );
    let expected = Event::TransferBatch {
        operator: id(42),
        from: id(42),
        to: zero(),
        token: vec![0, 1, 2, 3],
        amount: vec![1, 1, 1, 1],
    };
    assert_eq!(res, Ok(expected));
}

#[test]
fn handle_panic_test_burn_batch_length_mismatch_panics() {
    let mut program = init_program();
    mint_batch_0123(&mut program);
    let res = send(
        &mut program,
        42,
        Input::BurnBatch {
            from: id(42),
            token: vec![0, 1, 2, 3],
            amount: vec![1, 1, 1],
        },
    );
    assert_eq!(res, Err(Error::LengthMismatch));
}

#[test]
fn handle_test_update_token_metadata_works() {
    let mut program = init(Init::default(), id(42));
    assert!(send(
        &mut program,
        42,
        Input::Mint {
            to: id(42),
            token: 0,
            amount: 1,
        },
    )
    .is_ok());
    let res = send(
        &mut program,
        42,
        Input::UpdateTokenMetadata {
            token: 0,
            metadata: Some(nft()),
        },
    );
    let expected = Event::UpdateTokenMetadata {
        token: 0,
        metadata: Some(nft()),
    };
    assert_eq!(res, Ok(expected));
}

#[test]
fn handle_test_set_approval_for_all_works() {
    let mut program = init(Init::default(), id(42));
    let res = send(
        &mut program,
        42,
        Input::SetApprovalForAll {
            operator: id(1),
            approved: true,
        },
    );
    let expected = Event::ApprovalForAll {
        owner: id(42),
        operator: id(1),
        approved: true,
    };
    assert_eq!(res, Ok(expected));
}

#[test]
fn whoami_reports_sender_and_origin() {
    let mut program = init_program();
    program.env = MockConfig {
        sender: id(42),
        origin: id(31),
    };
    assert_eq!(
        program.handle(Input::Whoami),
        Ok(Event::Whoami {
            sender: id(42),
            origin: id(31),
        })
    );
}
