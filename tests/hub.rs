use loyalwolf::adapter::{Egress, EgressAction, Flow, Inbound, Ingress};
use loyalwolf::call::{CallState, Phase, Side};
use loyalwolf::hub::{Hub, Subscription};
use loyalwolf::message::{Message, OnlinePlayer, Operation, Subject};
use loyalwolf::service::{AcrobatService, EnderVisionService, WeaverService};
use loyalwolf::topic::{Pull, Topic};

fn line(text: &str) -> Message {
    Message::Line(text.to_string())
}

fn player(id: &str, name: &str) -> OnlinePlayer {
    OnlinePlayer { id: id.to_string(), name: name.to_string() }
}

#[test]
fn command_start_reaches_prior_subscriber_once() {
    let mut hub = Hub::with_capacity(128);
    let sub = hub.subscribe(Subject::Command).unwrap();
    assert_eq!(hub.publish(Message::Command("start".to_string())), 1);
    assert_eq!(hub.poll(sub), Pull::Message(Message::Command("start".to_string())));
    assert_eq!(hub.poll(sub), Pull::Empty);
}

#[test]
fn roster_snapshots_arrive_whole_and_in_order() {
    let mut hub = Hub::with_capacity(32);
    let sub = hub.subscribe(Subject::OnlinePlayers).unwrap();
    let both = vec![player("1", "A"), player("2", "B")];
    let one = vec![player("1", "A")];
    hub.publish(Message::OnlinePlayers(both.clone()));
    hub.publish(Message::OnlinePlayers(one.clone()));
    assert_eq!(hub.poll(sub), Pull::Message(Message::OnlinePlayers(both)));
    assert_eq!(hub.poll(sub), Pull::Message(Message::OnlinePlayers(one)));
    assert_eq!(hub.poll(sub), Pull::Empty);
}

#[test]
fn paused_subscriber_of_capacity_two_lags_by_three() {
    let mut hub = Hub::new(32, 2, 32, 32, 32);
    let sub = hub.subscribe(Subject::Line).unwrap();
    for text in ["m1", "m2", "m3", "m4", "m5"] {
        hub.publish(line(text));
    }
    assert_eq!(hub.poll(sub), Pull::Lagged(3));
    assert_eq!(hub.poll(sub), Pull::Message(line("m4")));
    assert_eq!(hub.poll(sub), Pull::Message(line("m5")));
    assert_eq!(hub.poll(sub), Pull::Empty);
}

#[test]
fn every_prior_subscriber_sees_the_same_messages_in_order() {
    let mut hub = Hub::with_capacity(32);
    let subs: Vec<Subscription> = (0..3).map(|_| hub.subscribe(Subject::Line).unwrap()).collect();
    let texts: Vec<String> = (0..10).map(|i| format!("line {}", i)).collect();
    for t in &texts {
        assert_eq!(hub.publish(line(t)), 3);
    }
    for sub in &subs {
        for t in &texts {
            assert_eq!(hub.poll(*sub), Pull::Message(line(t)));
        }
        assert_eq!(hub.poll(*sub), Pull::Empty);
    }
}

#[test]
fn lagging_subscriber_resumes_after_the_lag() {
    let mut hub = Hub::with_capacity(4);
    let sub = hub.subscribe(Subject::Notification).unwrap();
    for i in 0..7 {
        hub.publish(Message::Notification(format!("n{}", i)));
    }
    assert_eq!(hub.poll(sub), Pull::Lagged(3));
    for i in 3..7 {
        assert_eq!(hub.poll(sub), Pull::Message(Message::Notification(format!("n{}", i))));
    }
    hub.publish(Message::Notification("later".to_string()));
    assert_eq!(hub.poll(sub), Pull::Message(Message::Notification("later".to_string())));
    assert_eq!(hub.poll(sub), Pull::Empty);
}

#[test]
fn two_publishers_interleaved_deliver_every_message() {
    let mut hub = Hub::with_capacity(8);
    let sub = hub.subscribe(Subject::Command).unwrap();
    let k = 20;
    let mut received = Vec::new();
    for i in 0..k {
        hub.publish(Message::Command(format!("a{}", i)));
        hub.publish(Message::Command(format!("b{}", i)));
        while let Pull::Message(m) = hub.poll(sub) {
            received.push(m);
        }
    }
    assert_eq!(received.len(), 2 * k);
    let a: Vec<&Message> = received.iter().filter(|m| matches!(m, Message::Command(t) if t.starts_with('a'))).collect();
    assert_eq!(a.len(), k);
    assert_eq!(a[5], &Message::Command("a5".to_string()));
}

#[test]
fn closing_ingress_leaves_egress_delivering() {
    let mut hub = Hub::with_capacity(32);
    let service = EnderVisionService::new();
    let mut call = service.console(&mut hub).unwrap();
    call.state.start();
    assert_eq!(call.state.phase(), Phase::Streaming);
    let ingress = call.ingress.unwrap();
    let egress = call.egress.unwrap();
    assert_eq!(ingress.step(&mut hub, Inbound::Ended), Flow::Stop);
    call.state.ended(Side::Ingress);
    assert_eq!(call.state.phase(), Phase::Closing);
    assert!(call.state.is_live(Side::Egress));
    hub.publish(line("still here"));
    assert_eq!(egress.step(&mut hub), EgressAction::Forward(line("still here")));
    assert_eq!(egress.written(false), Flow::Stop);
    egress.close(&mut hub);
    call.state.ended(Side::Egress);
    assert_eq!(call.state.phase(), Phase::Closed);
}

#[test]
fn capacity_rounds_up_to_a_power_of_two() {
    let mut topic = Topic::new(3);
    let id = topic.subscribe().unwrap();
    for i in 0..5 {
        topic.publish(line(&format!("{}", i)));
    }
    assert_eq!(topic.poll(id), Pull::Lagged(1));
    assert_eq!(topic.poll(id), Pull::Message(line("1")));
}

#[test]
fn publish_without_subscribers_reaches_nobody() {
    let mut hub = Hub::with_capacity(8);
    assert_eq!(hub.publish(line("lost")), 0);
    let sub = hub.subscribe(Subject::Line).unwrap();
    assert_eq!(hub.poll(sub), Pull::Empty);
}

#[test]
fn subscriber_sees_only_messages_after_it_attached() {
    let mut hub = Hub::with_capacity(8);
    let early = hub.subscribe(Subject::Line).unwrap();
    hub.publish(line("first"));
    let late = hub.subscribe(Subject::Line).unwrap();
    hub.publish(line("second"));
    assert_eq!(hub.poll(late), Pull::Message(line("second")));
    assert_eq!(hub.poll(early), Pull::Message(line("first")));
    assert_eq!(hub.poll(early), Pull::Message(line("second")));
}

#[test]
fn unsubscribing_leaves_other_subscribers_alone() {
    let mut hub = Hub::with_capacity(8);
    let a = hub.subscribe(Subject::Operation).unwrap();
    let b = hub.subscribe(Subject::Operation).unwrap();
    hub.unsubscribe(a);
    assert_eq!(hub.publish(Message::Operation(Operation::Start)), 1);
    assert_eq!(hub.poll(a), Pull::Closed);
    assert_eq!(hub.poll(b), Pull::Message(Message::Operation(Operation::Start)));
}

#[test]
fn topics_are_separate() {
    let mut hub = Hub::with_capacity(8);
    let lines = hub.subscribe(Subject::Line).unwrap();
    let commands = hub.subscribe(Subject::Command).unwrap();
    hub.publish(Message::Command("stop".to_string()));
    assert_eq!(hub.poll(lines), Pull::Empty);
    assert_eq!(hub.poll(commands), Pull::Message(Message::Command("stop".to_string())));
}

#[test]
fn ingress_publishes_its_kind_and_stops_otherwise() {
    let mut hub = Hub::with_capacity(8);
    let sub = hub.subscribe(Subject::Line).unwrap();
    let ingress = Ingress::new(Subject::Line);
    assert_eq!(ingress.step(&mut hub, Inbound::Received(line("x"))), Flow::Continue);
    assert_eq!(ingress.step(&mut hub, Inbound::Received(Message::Command("y".to_string()))), Flow::Stop);
    assert_eq!(ingress.step(&mut hub, Inbound::Failed), Flow::Stop);
    assert_eq!(hub.poll(sub), Pull::Message(line("x")));
    assert_eq!(hub.poll(sub), Pull::Empty);
}

#[test]
fn egress_notes_lag_then_forwards_then_waits() {
    let mut hub = Hub::new(2, 2, 2, 2, 2);
    let egress = Egress::new(hub.subscribe(Subject::Line).unwrap());
    for text in ["a", "b", "c"] {
        hub.publish(line(text));
    }
    assert_eq!(egress.step(&mut hub), EgressAction::NoteLag(1));
    assert_eq!(egress.step(&mut hub), EgressAction::Forward(line("b")));
    assert_eq!(egress.written(true), Flow::Continue);
    assert_eq!(egress.step(&mut hub), EgressAction::Forward(line("c")));
    assert_eq!(egress.step(&mut hub), EgressAction::Wait);
    let sub = egress.subscription;
    egress.close(&mut hub);
    assert_eq!(Egress::new(sub).step(&mut hub), EgressAction::Stop);
}

#[test]
fn services_bind_their_topics() {
    let mut hub = Hub::with_capacity(8);
    let weaver = WeaverService::new();
    let call = weaver.console(&mut hub).unwrap();
    assert_eq!(call.ingress, Some(Ingress::new(Subject::Line)));
    assert_eq!(call.egress.unwrap().subscription.subject, Subject::Command);
    let call = weaver.management(&mut hub).unwrap();
    assert_eq!(call.ingress, Some(Ingress::new(Subject::Notification)));
    assert_eq!(call.egress.unwrap().subscription.subject, Subject::Operation);
    let ender = EnderVisionService::new();
    let call = ender.management(&mut hub).unwrap();
    assert_eq!(call.ingress, Some(Ingress::new(Subject::Operation)));
    assert_eq!(call.egress.unwrap().subscription.subject, Subject::Notification);
    let call = ender.online_players(&mut hub).unwrap();
    assert_eq!(call.ingress, None);
    assert_eq!(call.egress.unwrap().subscription.subject, Subject::OnlinePlayers);
    let call = AcrobatService::new().online_players(&mut hub).unwrap();
    assert_eq!(call.ingress, Some(Ingress::new(Subject::OnlinePlayers)));
    assert!(call.egress.is_none());
    assert_eq!(call.state, CallState::new(true, false));
    assert_eq!(call.state.phase(), Phase::Open);
}

#[test]
fn call_with_one_adapter_closes_when_it_ends() {
    let mut state = CallState::new(true, false);
    state.start();
    assert_eq!(state.phase(), Phase::Streaming);
    state.ended(Side::Ingress);
    assert_eq!(state.phase(), Phase::Closed);
}

#[test]
fn message_subjects_follow_their_kind() {
    assert_eq!(Message::Command(String::new()).subject(), Subject::Command);
    assert_eq!(line("").subject(), Subject::Line);
    assert_eq!(Message::Operation(Operation::Start).subject(), Subject::Operation);
    assert_eq!(Message::Notification(String::new()).subject(), Subject::Notification);
    assert_eq!(Message::OnlinePlayers(Vec::new()).subject(), Subject::OnlinePlayers);
}
