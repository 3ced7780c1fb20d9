use gaclen::sync::GpuFuture;

#[test]
fn combinators_build_the_expected_tree() {
    let chained = GpuFuture::now()
        .join(GpuFuture::signal(7))
        .then_execute(1)
        .then_swapchain_present(2)
        .then_signal_fence(9);
    let expected = GpuFuture::Fence(
        Box::new(GpuFuture::Present(
            Box::new(GpuFuture::Execute(
                Box::new(GpuFuture::Join(
                    Box::new(GpuFuture::Now),
                    Box::new(GpuFuture::Signal(7)),
                )),
                1,
            )),
            2,
        )),
        9,
    );
    assert_eq!(chained, expected);
}

#[test]
fn cleanup_prunes_only_completed_work() {
    let work = GpuFuture::signal(3).join(GpuFuture::signal(4));
    let pruned = work.cleanup_finished(&vec![3]);
    assert_eq!(
        pruned,
        GpuFuture::Join(Box::new(GpuFuture::Now), Box::new(GpuFuture::Signal(4)))
    );
}

#[test]
fn cleanup_collapses_a_fully_completed_chain() {
    let work = GpuFuture::signal(3).then_execute(5).then_signal_fence(6);
    let pruned = work.cleanup_finished(&vec![3, 5, 6]);
    assert_eq!(pruned, GpuFuture::Now);
}

#[test]
fn cleanup_keeps_an_unfinished_chain_intact() {
    let work = GpuFuture::signal(3).then_execute(5);
    let pruned = work.cleanup_finished(&vec![3]);
    // the submission itself has not completed, so it is still waited on
    assert_eq!(
        pruned,
        GpuFuture::Execute(Box::new(GpuFuture::Now), 5)
    );
}

#[test]
fn is_finished_requires_every_identifier() {
    let work = GpuFuture::signal(3).join(GpuFuture::signal(4));
    assert!(!work.is_finished(&vec![3]));
    assert!(work.is_finished(&vec![3, 4]));
    assert!(GpuFuture::now().is_finished(&Vec::new()));
}
