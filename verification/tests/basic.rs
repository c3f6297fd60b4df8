//! The host project's original miscellaneous tests.

#[test]
fn test0() {
    let mut i = 10;
    let j = 1;
    let rj = &j;
    let k = loop {
        i -= 1;
        println!("{rj}");
        let rj = &i;
        if i < 0 {
            break rj;
        }
    };
    println!("{k}");
}

#[test]
fn mod_test0() {
    let mut i = 10;
    let j = 1;
    let rj = &j;
    let k = loop {
        i -= 1;
        println!("{rj}");
        let rj = &i;
        if i < 0 {
            break rj;
        }
    };
    println!("{k}");
}

#[test]
fn test_vec() {
    let mut img = vec![0; 20];
    img[1] = 10;
    img[2] = 20;
    println!("{:#?}", img);
}

#[test]
fn sender_recver() {
    let (sender, receiver) = std::sync::mpsc::channel();
    sender.send(123).unwrap();
    sender.send(456).unwrap();
    sender.send(789).unwrap();

    println!("{:?},{:?}", receiver.recv(), receiver.recv());
}
