use checked::Checked;

#[test]
fn add1() {
    let x1 = Checked::<u8>::from(5);
    let y1 = Checked::<u8>::from(6);
    let x2 = 5 as u8;
    let y2 = 6 as u8;
    let z = Checked::<u8>::from(11);
    assert_eq!(x1 + y1, z);
    assert_eq!(x2 + y1, z);
    assert_eq!(x1 + y2, z);
    assert_eq!(&x1 + y1, z);
    assert_eq!(&x2 + y1, z);
    assert_eq!(&x1 + y2, z);
    assert_eq!(x1 + &y1, z);
    assert_eq!(x2 + &y1, z);
    assert_eq!(x1 + &y2, z);
    assert_eq!(&x1 + &y1, z);
    assert_eq!(&x2 + &y1, z);
    assert_eq!(&x1 + &y2, z);
}

#[test]
fn add2() {
    let x1 = Checked::<u32>::from(3_000_000_000);
    let y1 = Checked::<u32>::from(2_000_000_000);
    let x2 = 3_000_000_000 as u32;
    let y2 = 2_000_000_000 as u32;
    let z = Checked::<u32>::from(None);
    assert_eq!(x1 + y1, z);
    assert_eq!(x2 + y1, z);
    assert_eq!(x1 + y2, z);
    assert_eq!(&x1 + y1, z);
    assert_eq!(&x2 + y1, z);
    assert_eq!(&x1 + y2, z);
    assert_eq!(x1 + &y1, z);
    assert_eq!(x2 + &y1, z);
    assert_eq!(x1 + &y2, z);
    assert_eq!(&x1 + &y1, z);
    assert_eq!(&x2 + &y1, z);
    assert_eq!(&x1 + &y2, z);
}

#[test]
fn add3() {
    let x1 = Checked::<i32>::from(-2_000_000_000);
    let y1 = Checked::<i32>::from(-2_000_000_000);
    let x2 = (-2_000_000_000) as i32;
    let y2 = (-2_000_000_000) as i32;
    let z = Checked::<i32>::from(None);
    assert_eq!(x1 + y1, z);
    assert_eq!(x2 + y1, z);
    assert_eq!(x1 + y2, z);
    assert_eq!(&x1 + y1, z);
    assert_eq!(&x2 + y1, z);
    assert_eq!(&x1 + y2, z);
    assert_eq!(x1 + &y1, z);
    assert_eq!(x2 + &y1, z);
    assert_eq!(x1 + &y2, z);
    assert_eq!(&x1 + &y1, z);
    assert_eq!(&x2 + &y1, z);
    assert_eq!(&x1 + &y2, z);
}

#[test]
fn sub() {
    let x1 = Checked::<u8>::from(5);
    let y1 = Checked::<u8>::from(6);
    let x2 = 5 as u8;
    let y2 = 6 as u8;
    let z = Checked::<u8>::from(None);
    assert_eq!(x1 - y1, z);
    assert_eq!(x2 - y1, z);
    assert_eq!(x1 - y2, z);
    assert_eq!(&x1 - y1, z);
    assert_eq!(&x2 - y1, z);
    assert_eq!(&x1 - y2, z);
    assert_eq!(x1 - &y1, z);
    assert_eq!(x2 - &y1, z);
    assert_eq!(x1 - &y2, z);
    assert_eq!(&x1 - &y1, z);
    assert_eq!(&x2 - &y1, z);
    assert_eq!(&x1 - &y2, z);
}

#[test]
fn mul1() {
    let x1 = Checked::<u8>::from(5);
    let y1 = Checked::<u8>::from(6);
    let x2 = 5 as u8;
    let y2 = 6 as u8;
    let z = Checked::<u8>::from(30);
    assert_eq!(x1 * y1, z);
    assert_eq!(x2 * y1, z);
    assert_eq!(x1 * y2, z);
    assert_eq!(&x1 * y1, z);
    assert_eq!(&x2 * y1, z);
    assert_eq!(&x1 * y2, z);
    assert_eq!(x1 * &y1, z);
    assert_eq!(x2 * &y1, z);
    assert_eq!(x1 * &y2, z);
    assert_eq!(&x1 * &y1, z);
    assert_eq!(&x2 * &y1, z);
    assert_eq!(&x1 * &y2, z);
}

#[test]
fn mul2() {
    let x1 = Checked::<i32>::from(2_000_000_000);
    let y1 = Checked::<i32>::from(3);
    let x2 = 2_000_000_000 as i32;
    let y2 = 3 as i32;
    let z = Checked::<i32>::from(None);
    assert_eq!(x1 * y1, z);
    assert_eq!(x2 * y1, z);
    assert_eq!(x1 * y2, z);
    assert_eq!(&x1 * y1, z);
    assert_eq!(&x2 * y1, z);
    assert_eq!(&x1 * y2, z);
    assert_eq!(x1 * &y1, z);
    assert_eq!(x2 * &y1, z);
    assert_eq!(x1 * &y2, z);
    assert_eq!(&x1 * &y1, z);
    assert_eq!(&x2 * &y1, z);
    assert_eq!(&x1 * &y2, z);
}

#[test]
fn div1() {
    let x1 = Checked::<u8>::from(10);
    let y1 = Checked::<u8>::from(3);
    let x2 = 10 as u8;
    let y2 = 3 as u8;
    let z = Checked::<u8>::from(3);
    assert_eq!(x1 / y1, z);
    assert_eq!(x2 / y1, z);
    assert_eq!(x1 / y2, z);
    assert_eq!(&x1 / y1, z);
    assert_eq!(&x2 / y1, z);
    assert_eq!(&x1 / y2, z);
    assert_eq!(x1 / &y1, z);
    assert_eq!(x2 / &y1, z);
    assert_eq!(x1 / &y2, z);
    assert_eq!(&x1 / &y1, z);
    assert_eq!(&x2 / &y1, z);
    assert_eq!(&x1 / &y2, z);
}

#[test]
fn div2() {
    let x1 = Checked::<u8>::from(10);
    let y1 = Checked::<u8>::from(0);
    let x2 = 10 as u8;
    let y2 = 0 as u8;
    let z = Checked::<u8>::from(None);
    assert_eq!(x1 / y1, z);
    assert_eq!(x2 / y1, z);
    assert_eq!(x1 / y2, z);
    assert_eq!(&x1 / y1, z);
    assert_eq!(&x2 / y1, z);
    assert_eq!(&x1 / y2, z);
    assert_eq!(x1 / &y1, z);
    assert_eq!(x2 / &y1, z);
    assert_eq!(x1 / &y2, z);
    assert_eq!(&x1 / &y1, z);
    assert_eq!(&x2 / &y1, z);
    assert_eq!(&x1 / &y2, z);
}

#[test]
fn and() {
    let x1 = Checked::<u8>::from(5);
    let y1 = Checked::<u8>::from(6);
    let x2 = 5 as u8;
    let y2 = 6 as u8;
    let z = Checked::<u8>::from(4);
    assert_eq!(x1 & y1, z);
    assert_eq!(x2 & y1, z);
    assert_eq!(x1 & y2, z);
    assert_eq!(&x1 & y1, z);
    assert_eq!(&x2 & y1, z);
    assert_eq!(&x1 & y2, z);
    assert_eq!(x1 & &y1, z);
    assert_eq!(x2 & &y1, z);
    assert_eq!(x1 & &y2, z);
    assert_eq!(&x1 & &y1, z);
    assert_eq!(&x2 & &y1, z);
    assert_eq!(&x1 & &y2, z);
}

#[test]
fn xor() {
    let x1 = Checked::<u8>::from(5);
    let y1 = Checked::<u8>::from(6);
    let x2 = 5 as u8;
    let y2 = 6 as u8;
    let z = Checked::<u8>::from(3);
    assert_eq!(x1 ^ y1, z);
    assert_eq!(x2 ^ y1, z);
    assert_eq!(x1 ^ y2, z);
    assert_eq!(&x1 ^ y1, z);
    assert_eq!(&x2 ^ y1, z);
    assert_eq!(&x1 ^ y2, z);
    assert_eq!(x1 ^ &y1, z);
    assert_eq!(x2 ^ &y1, z);
    assert_eq!(x1 ^ &y2, z);
    assert_eq!(&x1 ^ &y1, z);
    assert_eq!(&x2 ^ &y1, z);
    assert_eq!(&x1 ^ &y2, z);
}

#[test]
fn or() {
    let x1 = Checked::<u8>::from(5);
    let y1 = Checked::<u8>::from(6);
    let x2 = 5 as u8;
    let y2 = 6 as u8;
    let z = Checked::<u8>::from(7);
    assert_eq!(x1 | y1, z);
    assert_eq!(x2 | y1, z);
    assert_eq!(x1 | y2, z);
    assert_eq!(&x1 | y1, z);
    assert_eq!(&x2 | y1, z);
    assert_eq!(&x1 | y2, z);
    assert_eq!(x1 | &y1, z);
    assert_eq!(x2 | &y1, z);
    assert_eq!(x1 | &y2, z);
    assert_eq!(&x1 | &y1, z);
    assert_eq!(&x2 | &y1, z);
    assert_eq!(&x1 | &y2, z);
}

#[test]
fn rem() {
    let x1 = Checked::<u8>::from(10);
    let y1 = Checked::<u8>::from(3);
    let x2 = 10 as u8;
    let y2 = 3 as u8;
    let z = Checked::<u8>::from(1);
    assert_eq!(x1 % y1, z);
    assert_eq!(x2 % y1, z);
    assert_eq!(x1 % y2, z);
    assert_eq!(&x1 % y1, z);
    assert_eq!(&x2 % y1, z);
    assert_eq!(&x1 % y2, z);
    assert_eq!(x1 % &y1, z);
    assert_eq!(x2 % &y1, z);
    assert_eq!(x1 % &y2, z);
    assert_eq!(&x1 % &y1, z);
    assert_eq!(&x2 % &y1, z);
    assert_eq!(&x1 % &y2, z);
}

#[test]
fn shl() {
    let x1 = Checked::<u8>::from(10);
    let y1 = Checked::<u32>::from(3);
    let x2 = 10 as u8;
    let y2 = 3 as u32;
    let z = Checked::<u8>::from(80);
    assert_eq!(x1 << y1, z);
    assert_eq!(x2 << y1, z);
    assert_eq!(x1 << y2, z);
    assert_eq!(&x1 << y1, z);
    assert_eq!(&x2 << y1, z);
    assert_eq!(&x1 << y2, z);
    assert_eq!(x1 << &y1, z);
    assert_eq!(x2 << &y1, z);
    assert_eq!(x1 << &y2, z);
    assert_eq!(&x1 << &y1, z);
    assert_eq!(&x2 << &y1, z);
    assert_eq!(&x1 << &y2, z);
}

#[test]
fn shr() {
    let x1 = Checked::<u8>::from(80);
    let y1 = Checked::<u32>::from(3);
    let x2 = 80 as u8;
    let y2 = 3 as u32;
    let z = Checked::<u8>::from(10);
    assert_eq!(x1 >> y1, z);
    assert_eq!(x2 >> y1, z);
    assert_eq!(x1 >> y2, z);
    assert_eq!(&x1 >> y1, z);
    assert_eq!(&x2 >> y1, z);
    assert_eq!(&x1 >> y2, z);
    assert_eq!(x1 >> &y1, z);
    assert_eq!(x2 >> &y1, z);
    assert_eq!(x1 >> &y2, z);
    assert_eq!(&x1 >> &y1, z);
    assert_eq!(&x2 >> &y1, z);
    assert_eq!(&x1 >> &y2, z);
}

#[test]
fn neg1() {
    let x = Checked::<u8>::from(5);
    let y = Checked::<u8>::from(None);
    assert_eq!(-x, y);
    assert_eq!(-&x, y);
}

#[test]
fn neg2() {
    let x = Checked::<i8>::from(5);
    let y = Checked::<i8>::from(-5);
    assert_eq!(-x, y);
    assert_eq!(-&x, y);
}

#[test]
fn not() {
    let x = Checked::<i8>::from(5);
    let y = Checked::<i8>::from(-6);
    assert_eq!(!x, y);
    assert_eq!(!&x, y);
}
