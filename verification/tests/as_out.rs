use outref::{AsOut, Out, Uninit, UninitSlice};

fn store<S: AsOut<u32>>(storage: &mut S, value: u32) {
    let mut out = storage.as_out();
    let _ = out.overwrite(value);
}

fn fill<S: AsOut<[u8]> + ?Sized>(storage: &mut S, value: u8) -> usize {
    let mut out = storage.as_out();
    out.fill_copied(value).len()
}

#[test]
fn as_out_of_a_value() {
    let mut x: u32 = 1;
    {
        let mut out: Out<'_, u32> = x.as_out();
        let _ = out.overwrite(2);
    }
    assert_eq!(x, 2);
    store(&mut x, 3);
    assert_eq!(x, 3);
}

#[test]
fn as_out_of_a_cell() {
    let mut cell: Uninit<u32> = Uninit::uninit();
    {
        let mut out: Out<'_, u32> = cell.as_out();
        let _ = out.overwrite(2);
    }
    assert_eq!(cell.get(), Some(&2));
    store(&mut cell, 3);
    assert_eq!(cell.into_inner(), Some(3));
}

#[test]
fn as_out_of_a_slice() {
    let mut data: Vec<u8> = vec![1, 2, 3];
    {
        let mut out: Out<'_, [u8]> = data.as_mut_slice().as_out();
        assert_eq!(out.len(), 3);
        let _ = out.fill_copied(4);
    }
    assert_eq!(data, vec![4u8, 4, 4]);
    assert_eq!(fill(&mut data[1..], 5), 2);
    assert_eq!(data, vec![4u8, 5, 5]);
}

#[test]
fn as_out_of_run_storage() {
    let mut run: UninitSlice<u8> = UninitSlice::with_len(2);
    {
        let mut out: Out<'_, [u8]> = run.as_out();
        assert_eq!(out.len(), 2);
        assert_eq!(out.copy_from_slice(&[8, 9]), Ok(()));
    }
    assert_eq!(run.as_slice(), Some(&[8u8, 9][..]));
    assert_eq!(fill(&mut run, 1), 2);
    assert_eq!(run.into_vec(), Some(vec![1u8, 1]));
}

#[test]
fn as_out_neither_reads_nor_changes_the_storage() {
    let mut x: u32 = 5;
    drop::<Out<'_, u32>>(x.as_out());
    assert_eq!(x, 5);

    let mut cell: Uninit<u32> = Uninit::uninit();
    drop::<Out<'_, u32>>(cell.as_out());
    assert!(!cell.is_init());

    let mut run: UninitSlice<u32> = UninitSlice::with_len(3);
    drop::<Out<'_, [u32]>>(run.as_out());
    assert!(!run.is_init());
    assert_eq!(run.len(), 3);
}
