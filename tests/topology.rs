use webhook_sender::topology::{plan_pool, ActorPlan, Lane, REMOTE_PORT};

#[test]
fn pool_is_the_cross_product() {
    let fresh = vec![1u32, 2];
    let retry = vec![9u32];
    let remotes = vec![100u32, 200, 300];
    let plan = plan_pool(&fresh, &retry, &remotes, 2, 1);
    assert_eq!(plan.len(), 2 * 3 * 2 + 3);
    let fresh_actors: Vec<&ActorPlan> = plan.iter().filter(|a| a.consumes == Lane::Fresh).collect();
    assert_eq!(fresh_actors.len(), 12);
    assert!(plan.iter().all(|a| a.requeues_to == Lane::Retry));
    assert_eq!(plan[0], ActorPlan { local: 1, remote: 100, consumes: Lane::Fresh, requeues_to: Lane::Retry });
    assert_eq!(plan[5], ActorPlan { local: 2, remote: 300, consumes: Lane::Fresh, requeues_to: Lane::Retry });
    assert_eq!(plan[6], plan[0]);
    assert_eq!(plan[12], ActorPlan { local: 9, remote: 100, consumes: Lane::Retry, requeues_to: Lane::Retry });
    assert_eq!(REMOTE_PORT, 443);
}

#[test]
fn empty_inputs_give_no_actor() {
    assert!(plan_pool(&vec![1], &vec![2], &vec![], 3, 3).is_empty());
    assert!(plan_pool(&vec![1], &vec![2], &vec![5], 0, 0).is_empty());
    assert_eq!(plan_pool(&vec![], &vec![2], &vec![5, 6], 4, 1).len(), 2);
}
