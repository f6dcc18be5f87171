use novavm::backend::{block_info_of, ChainApi, NativeBlockContext};
use novavm::vm_status::LOOKUP_FAILED;

struct Chain(bool);

impl ChainApi for Chain {
    fn get_block_info(&self) -> Result<(u64, u64), anyhow::Error> {
        if self.0 {
            Ok((12, 1_000))
        } else {
            Err(anyhow::Error::msg("no block"))
        }
    }
}

#[test]
fn block_info_through_the_chain_api() {
    let up = Chain(true);
    assert_eq!(NativeBlockContext::new(&up).block_info().unwrap(), (12, 1_000));
    let down = Chain(false);
    assert_eq!(NativeBlockContext::new(&down).block_info().unwrap_err().major_status, LOOKUP_FAILED);
}

#[test]
fn block_info_through_a_trait_object() {
    let up = Chain(true);
    let api: &dyn ChainApi = &up;
    assert_eq!(NativeBlockContext::new(api).block_info().unwrap(), (12, 1_000));
}

#[test]
fn block_lookup_answers() {
    assert_eq!(block_info_of(Ok((3, 4))).unwrap(), (3, 4));
    let e = block_info_of(Err(anyhow::Error::msg("down"))).unwrap_err();
    assert_eq!(e.major_status, LOOKUP_FAILED);
    assert!(e.message.is_none());
}
