//! Derivation of the address at which an invoice is stored.

use vstd::prelude::*;
use crate::invoice::text_bytes;
use crate::key::Key;
use anchor_lang::prelude::Pubkey;

verus! {

/// The address that a list of seeds derives under a program, or `None` where the
/// seeds derive no address.
pub uninterp spec fn program_address(seeds: Seq<Seq<u8>>, program_id: Seq<u8>) -> Option<Seq<u8>>;

/// The id of the program that keeps the invoices.
pub const ID: [u8; 32] = [
    123, 235, 50, 146, 46, 232, 100, 207,
    197, 230, 224, 80, 198, 237, 139, 73,
    27, 185, 197, 209, 234, 152, 247, 187,
    12, 6, 18, 23, 64, 26, 156, 119,
];

/// The longest seed that can take part in a derivation.
pub const MAX_SEED_LEN: usize = 32;

/// The most seeds that can take part in a derivation.
pub const MAX_SEEDS: usize = 16;

/// The seeds as sequences of bytes.
pub open spec fn seed_list(seeds: Seq<&[u8]>) -> Seq<Seq<u8>> {
    Seq::new(seeds.len(), |i: int| seeds[i]@)
}

/// There are no more seeds than a derivation takes, and none is too long.
pub open spec fn seeds_fit(seeds: Seq<Seq<u8>>) -> bool {
    &&& seeds.len() <= MAX_SEEDS
    &&& forall|i: int| 0 <= i < seeds.len() ==> (#[trigger] seeds[i]).len() <= MAX_SEED_LEN
}

/// The address that the seeds derive under a program, where they fit and
/// derive one.
pub open spec fn derive(seeds: Seq<Seq<u8>>, program_id: Seq<u8>) -> Option<Seq<u8>> {
    if seeds_fit(seeds) {
        program_address(seeds, program_id)
    } else {
        None
    }
}

/// The first bump, counting down from `from` and stopping above zero, which
/// the seeds followed by the bump derive an address with, and that address.
pub open spec fn search(seeds: Seq<Seq<u8>>, program_id: Seq<u8>, from: u8) -> Option<
    (Seq<u8>, u8),
>
    decreases from,
{
    if from == 0 {
        None
    } else {
        match program_address(seeds.push(seq![from]), program_id) {
            Some(address) => Some((address, from)),
            None => search(seeds, program_id, (from - 1) as u8),
        }
    }
}

/// The address under the largest bump with which the seeds derive one, and
/// that bump. `None` where the seeds leave no room for a bump, one of them is
/// too long, or no bump derives an address.
pub open spec fn canonical(seeds: Seq<Seq<u8>>, program_id: Seq<u8>) -> Option<(Seq<u8>, u8)> {
    if seeds.len() >= MAX_SEEDS || !seeds_fit(seeds) {
        None
    } else {
        search(seeds, program_id, u8::MAX)
    }
}

/// `Pubkey::create_program_address`. It refuses more than 16 seeds and any
/// seed of more than 32 bytes; otherwise it returns the address that the
/// seeds derive under the program, where they derive one.
#[verifier::external_body]
pub(crate) fn create_address(seeds: &[&[u8]], program_id: &Key) -> (r: Option<Key>)
    ensures
        !seeds_fit(seed_list(seeds@)) ==> r is None,
        seeds_fit(seed_list(seeds@)) ==> match program_address(seed_list(seeds@), program_id@) {
            Some(address) => r is Some && r->0@ == address,
            None => r is None,
        },
{
    let program = Pubkey::new_from_array(program_id.bytes);
    match Pubkey::create_program_address(seeds, &program) {
        Ok(address) => Some(Key::new(address.to_bytes())),
        Err(_) => None,
    }
}

/// `Pubkey::try_find_program_address`. With fewer than 16 seeds, none of more
/// than 32 bytes, it tries the bumps from 255 down to 1 as one more seed and
/// returns the first address derived, with its bump; `None` where none
/// derives an address. Otherwise it returns `None`.
#[verifier::external_body]
pub(crate) fn find_address(seeds: &[&[u8]], program_id: &Key) -> (r: Option<(Key, u8)>)
    ensures
        match canonical(seed_list(seeds@), program_id@) {
            Some((address, bump)) => r matches Some((found, found_bump)) && found@ == address
                && found_bump == bump,
            None => r is None,
        },
{
    let program = Pubkey::new_from_array(program_id.bytes);
    match Pubkey::try_find_program_address(seeds, &program) {
        Some((address, bump)) => Some((Key::new(address.to_bytes()), bump)),
        None => None,
    }
}

/// The seeds that an invoice has whatever its bump: the creditor, the debtor,
/// and the project.
pub open spec fn party_seeds(creditor: Seq<u8>, debtor: Seq<u8>, project: Seq<u8>) -> Seq<
    Seq<u8>,
> {
    seq![creditor, debtor, project]
}

/// The seeds of an invoice: its parties, its project, and the bump.
pub open spec fn invoice_seeds(
    creditor: Seq<u8>,
    debtor: Seq<u8>,
    project: Seq<u8>,
    bump: u8,
) -> Seq<Seq<u8>> {
    seq![creditor, debtor, project, seq![bump]]
}

/// The address that two parties, a project and a bump derive under a program,
/// where each fits a seed and they derive one.
pub open spec fn derived_address(
    creditor: Seq<u8>,
    debtor: Seq<u8>,
    project: Seq<u8>,
    bump: u8,
    program_id: Seq<u8>,
) -> Option<Seq<u8>> {
    derive(invoice_seeds(creditor, debtor, project, bump), program_id)
}

/// The canonical address and bump of the invoice between two parties for a
/// project: the address under the largest bump that derives one. `None` where
/// the project is too long for a seed or no bump derives an address.
pub open spec fn canonical_address(
    creditor: Seq<u8>,
    debtor: Seq<u8>,
    project: Seq<u8>,
    program_id: Seq<u8>,
) -> Option<(Seq<u8>, u8)> {
    canonical(party_seeds(creditor, debtor, project), program_id)
}

/// The id of the program that keeps the invoices.
pub fn id() -> (key: Key)
    ensures
        key@ == ID@,
{
    Key::new(ID)
}

/// The canonical address of the invoice between two parties for a project, and
/// its bump. `None` where the project id has more than 32 bytes or no bump
/// derives an address.
pub fn find_invoice_address(
    creditor: &Key,
    debtor: &Key,
    project_id: &str,
    program_id: &Key,
) -> (r: Option<(Key, u8)>)
    ensures
        match canonical_address(creditor@, debtor@, text_bytes(project_id@), program_id@) {
            Some((address, bump)) => r matches Some((found, found_bump)) && found@ == address
                && found_bump == bump,
            None => r is None,
        },
        text_bytes(project_id@).len() > MAX_SEED_LEN ==> r is None,
{
    let seeds: [&[u8]; 3] = [
        creditor.bytes.as_slice(),
        debtor.bytes.as_slice(),
        project_id.as_bytes(),
    ];
    proof {
        let list = party_seeds(creditor@, debtor@, text_bytes(project_id@));
        assert(seed_list(seeds@) =~= list);
        lemma_invoice_seeds_fit(*creditor, *debtor, text_bytes(project_id@), 0);
    }
    find_address(seeds.as_slice(), program_id)
}

/// The address that two parties, a project and a bump derive. `None` where
/// the project id has more than 32 bytes or they derive no address.
pub fn invoice_address(
    creditor: &Key,
    debtor: &Key,
    project_id: &str,
    bump: u8,
    program_id: &Key,
) -> (r: Option<Key>)
    ensures
        match derived_address(creditor@, debtor@, text_bytes(project_id@), bump, program_id@) {
            Some(address) => r is Some && r->0@ == address,
            None => r is None,
        },
        text_bytes(project_id@).len() > MAX_SEED_LEN ==> r is None,
{
    let bump_seed: [u8; 1] = [bump];
    let seeds: [&[u8]; 4] = [
        creditor.bytes.as_slice(),
        debtor.bytes.as_slice(),
        project_id.as_bytes(),
        bump_seed.as_slice(),
    ];
    proof {
        let list = invoice_seeds(creditor@, debtor@, text_bytes(project_id@), bump);
        assert(bump_seed@ =~= seq![bump]);
        assert(seed_list(seeds@) =~= list);
        lemma_invoice_seeds_fit(*creditor, *debtor, text_bytes(project_id@), bump);
    }
    create_address(seeds.as_slice(), program_id)
}

/// The seeds of an invoice between two parties fit a derivation exactly when
/// the project does.
pub proof fn lemma_invoice_seeds_fit(creditor: Key, debtor: Key, project: Seq<u8>, bump: u8)
    ensures
        seeds_fit(invoice_seeds(creditor@, debtor@, project, bump)) <==> project.len()
            <= MAX_SEED_LEN,
        seeds_fit(party_seeds(creditor@, debtor@, project)) <==> project.len() <= MAX_SEED_LEN,
{
    let with_bump = invoice_seeds(creditor@, debtor@, project, bump);
    let without = party_seeds(creditor@, debtor@, project);
    assert(with_bump[2] == project);
    assert(without[2] == project);
}

/// The canonical bump derives the canonical address.
pub proof fn lemma_canonical_derives(
    creditor: Seq<u8>,
    debtor: Seq<u8>,
    project: Seq<u8>,
    program_id: Seq<u8>,
)
    ensures
        match canonical_address(creditor, debtor, project, program_id) {
            Some((address, bump)) => {
                &&& bump >= 1
                &&& derived_address(creditor, debtor, project, bump, program_id) == Some(address)
            },
            None => true,
        },
{
    let seeds = party_seeds(creditor, debtor, project);
    lemma_search_derives(seeds, program_id, u8::MAX);
    match canonical_address(creditor, debtor, project, program_id) {
        Some((address, bump)) => {
            let with_bump = invoice_seeds(creditor, debtor, project, bump);
            assert(seeds.push(seq![bump]) =~= with_bump);
            assert forall|i: int| 0 <= i < with_bump.len() implies (#[trigger] with_bump[i]).len()
                <= MAX_SEED_LEN by {
                if i < 3 {
                    assert(with_bump[i] == seeds[i]);
                }
            }
        },
        None => {},
    }
}

proof fn lemma_search_derives(seeds: Seq<Seq<u8>>, program_id: Seq<u8>, from: u8)
    ensures
        match search(seeds, program_id, from) {
            Some((address, bump)) => {
                &&& 1 <= bump <= from
                &&& program_address(seeds.push(seq![bump]), program_id) == Some(address)
            },
            None => true,
        },
    decreases from,
{
    if from != 0 {
        if program_address(seeds.push(seq![from]), program_id) is None {
            lemma_search_derives(seeds, program_id, (from - 1) as u8);
        }
    }
}

} // verus!
